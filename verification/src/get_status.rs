use crate::command::ChainedCommand;
use crate::control::{ReadRequest, UsbReadControl, UsbWriteControl};
use crate::error::Error;
use crate::state::State;
use vstd::prelude::*;

verus! {

/// Class request to an interface, from the device to the host.
pub const REQUEST_TYPE_IN: u8 = 0b10100001;

/// Class request to an interface, from the host to the device.
pub const REQUEST_TYPE_OUT: u8 = 0b00100001;

pub const DFU_GETSTATUS: u8 = 3;

pub const DFU_CLRSTATUS: u8 = 4;

/// Number of bytes in the answer to a status request.
pub const STATUS_LENGTH: usize = 6;

/// The status of a device.
#[derive(Debug, Clone, Copy, PartialEq, Eq, Structural)]
pub struct GetStatusMessage {
    /// Outcome of the last request.
    pub status: u8,
    /// Milliseconds to wait before the next status request.
    pub poll_timeout: u64,
    /// State that the device is in after this answer.
    pub state: State,
    /// Index of the description of the status.
    pub index: u8,
}

/// The status that the answer `bytes` holds: one byte of status, three of poll timeout (the
/// lowest first), one of state and one of index. Bytes past these are ignored.
pub open spec fn decoded(bytes: Seq<u8>) -> Result<GetStatusMessage, Error> {
    if bytes.len() < STATUS_LENGTH {
        Err(Error::ResponseTooShort { got: bytes.len() as usize, expected: STATUS_LENGTH })
    } else {
        match State::of_code(bytes[4]) {
            None => Err(Error::UnrecognizedStateCode(bytes[4])),
            Some(state) => Ok(
                GetStatusMessage {
                    status: bytes[0],
                    poll_timeout: (bytes[1] + 256 * bytes[2] + 65536 * bytes[3]) as u64,
                    state,
                    index: bytes[5],
                },
            ),
        }
    }
}

impl GetStatusMessage {
    /// Reads the status out of the answer to a status request.
    pub fn decode(bytes: &[u8]) -> (r: Result<GetStatusMessage, Error>)
        ensures
            r == decoded(bytes@),
    {
        if bytes.len() < STATUS_LENGTH {
            return Err(Error::ResponseTooShort { got: bytes.len(), expected: STATUS_LENGTH });
        }
        match State::from_code(bytes[4]) {
            None => Err(Error::UnrecognizedStateCode(bytes[4])),
            Some(state) => Ok(
                GetStatusMessage {
                    status: bytes[0],
                    poll_timeout: bytes[1] as u64 + 256 * bytes[2] as u64 + 65536 * bytes[3] as u64,
                    state,
                    index: bytes[5],
                },
            ),
        }
    }
}

/// What a device sees of a status request for which the host has `room` bytes.
pub open spec fn status_request(room: nat) -> ReadRequest {
    ReadRequest {
        request_type: REQUEST_TYPE_IN,
        request: DFU_GETSTATUS,
        value: 0,
        length: if room < STATUS_LENGTH {
            room
        } else {
            STATUS_LENGTH as nat
        },
    }
}

/// Asks for the status before `chained_command` goes on.
#[derive(Debug)]
pub struct GetStatus<T> {
    pub chained_command: T,
}

/// Receives the answer to a status request.
#[derive(Debug)]
pub struct GetStatusRecv<T> {
    pub chained_command: T,
}

impl<T> GetStatus<T> {
    /// Prepares the status request. The answer is to be placed in `buffer`.
    pub fn get_status<'buf>(self, buffer: &'buf mut [u8]) -> (r: (
        GetStatusRecv<T>,
        UsbReadControl<'buf>,
    ))
        ensures
            r.0.chained_command == self.chained_command,
            r.1@ == status_request(old(buffer)@.len()),
            r.1.buffer@ == old(buffer)@.take(r.1.buffer@.len() as int),
            final(buffer)@ == final(r.1.buffer)@ + old(buffer)@.skip(r.1.buffer@.len() as int),
    {
        let len: usize = if buffer.len() < STATUS_LENGTH {
            buffer.len()
        } else {
            STATUS_LENGTH
        };
        let (head, _rest) = buffer.split_at_mut(len);
        (
            GetStatusRecv { chained_command: self.chained_command },
            UsbReadControl {
                request_type: REQUEST_TYPE_IN,
                request: DFU_GETSTATUS,
                value: 0,
                buffer: head,
            },
        )
    }
}

impl<T: ChainedCommand<Arg = GetStatusMessage>> GetStatusRecv<T> {
    /// What the chained command turns into when the device has answered with `bytes`.
    pub open spec fn chained(self, bytes: Seq<u8>) -> Result<T::Into, Error> {
        match decoded(bytes) {
            Err(e) => Err(e),
            Ok(message) => Ok(self.chained_command.chain_spec(message)),
        }
    }

    /// Processes the answer.
    pub fn chain(self, bytes: &[u8]) -> (r: Result<T::Into, Error>)
        ensures
            r == self.chained(bytes@),
    {
        match GetStatusMessage::decode(bytes) {
            Err(e) => Err(e),
            Ok(message) => Ok(self.chained_command.chain(message)),
        }
    }
}

/// The request that takes a device out of its error state.
pub open spec fn clear_request() -> UsbWriteControl<[u8; 0]> {
    UsbWriteControl { request_type: REQUEST_TYPE_OUT, request: DFU_CLRSTATUS, value: 0, data: [] }
}

/// Clears the status of a device that is in error before `chained_command` goes on.
#[derive(Debug)]
pub struct ClearStatus<T> {
    pub chained_command: T,
}

impl<T> ChainedCommand for ClearStatus<T> {
    type Arg = GetStatusMessage;

    type Into = (T, Option<UsbWriteControl<[u8; 0]>>);

    open spec fn chain_spec(self, arg: GetStatusMessage) -> Self::Into {
        (
            self.chained_command,
            if arg.state == State::DfuError {
                Some(clear_request())
            } else {
                None
            },
        )
    }

    fn chain(self, arg: GetStatusMessage) -> (r: Self::Into) {
        let control = if arg.state == State::DfuError {
            Some(
                UsbWriteControl {
                    request_type: REQUEST_TYPE_OUT,
                    request: DFU_CLRSTATUS,
                    value: 0,
                    data: [],
                },
            )
        } else {
            None
        };
        (self.chained_command, control)
    }
}

/// Waits until the device has left the state `intermediate` for the state `state`.
#[derive(Debug)]
pub struct WaitState<T> {
    pub intermediate: State,
    pub state: State,
    pub chained_command: T,
    /// The device has reached `state`.
    pub end: bool,
    /// Milliseconds to wait before the next status request.
    pub poll_timeout: u64,
}

/// Step in the wait.
#[derive(Debug)]
pub enum Step<T> {
    /// The wait is over.
    Break(T),
    /// Sleep for so many milliseconds, then ask for the status.
    Wait(GetStatus<WaitState<T>>, u64),
}

impl<T> WaitState<T> {
    /// The wait at its beginning.
    pub open spec fn fresh(intermediate: State, state: State, chained_command: T) -> WaitState<T> {
        WaitState { intermediate, state, chained_command, end: false, poll_timeout: 0 }
    }

    /// Starts a wait after which `chained_command` goes on.
    pub fn new(intermediate: State, state: State, chained_command: T) -> (r: WaitState<T>)
        ensures
            r == WaitState::fresh(intermediate, state, chained_command),
    {
        WaitState { intermediate, state, chained_command, end: false, poll_timeout: 0 }
    }

    /// The step that is due.
    pub open spec fn due(self) -> Step<T> {
        if self.end {
            Step::Break(self.chained_command)
        } else {
            Step::Wait(GetStatus { chained_command: self }, self.poll_timeout)
        }
    }

    /// Get the next step in the wait.
    pub fn next(self) -> (r: Step<T>)
        ensures
            r == self.due(),
    {
        if self.end {
            Step::Break(self.chained_command)
        } else {
            let poll_timeout = self.poll_timeout;
            Step::Wait(GetStatus { chained_command: self }, poll_timeout)
        }
    }
}

impl<T> ChainedCommand for WaitState<T> {
    type Arg = GetStatusMessage;

    type Into = Result<WaitState<T>, Error>;

    open spec fn chain_spec(self, arg: GetStatusMessage) -> Self::Into {
        if arg.state == self.state {
            Ok(WaitState { end: true, ..self })
        } else if arg.state == self.intermediate {
            Ok(WaitState { poll_timeout: arg.poll_timeout, ..self })
        } else {
            Err(Error::InvalidState { got: arg.state, expected: self.state })
        }
    }

    fn chain(self, arg: GetStatusMessage) -> (r: Self::Into) {
        if arg.state == self.state {
            Ok(WaitState { end: true, ..self })
        } else if arg.state == self.intermediate {
            Ok(WaitState { poll_timeout: arg.poll_timeout, ..self })
        } else {
            Err(Error::InvalidState { got: arg.state, expected: self.state })
        }
    }
}

} // verus!
