//! The order of events of an upload: what the host does next, and what it makes of the outcome.

use crate::control::{ReadRequest, UsbReadControl, UsbWriteControl};
use crate::error::Error;
use crate::get_status;
use crate::get_status::{ClearStatus, GetStatus, GetStatusRecv, WaitState};
use crate::state::State;
use crate::synchronous;
use crate::synchronous::wait_for_state;
use crate::upload::{Start, Step, UploadChunkRecv, UploadLoop};
use vstd::prelude::*;

verus! {

/// What an upload does next. Each variant holds what takes the outcome in.
pub enum UploadAction<'buf> {
    /// Make the control transfer from the device.
    Read(UsbReadControl<'buf>, UploadReply),
    /// Make the control transfer to the device that clears its status.
    ClearStatus(UsbWriteControl<[u8; 0]>, UploadSent),
    /// Make the control transfer to the device that sets the address.
    SetAddress(UsbWriteControl<[u8; 5]>, UploadSent),
    /// Sleep for so many milliseconds.
    Sleep(u64, UploadSlept),
    /// Write the bytes to where the firmware goes.
    Store(&'buf [u8], UploadStored),
    /// Report so many bytes as progress.
    Progress(usize, UploadReported),
    /// The upload is over.
    Done,
}

/// The beginning of an upload.
#[must_use]
pub struct UploadStart {
    pub command: GetStatus<ClearStatus<GetStatus<Start>>>,
}

/// Takes in the answer of the device.
#[must_use]
pub enum UploadReply {
    /// The first status.
    Status(GetStatusRecv<ClearStatus<GetStatus<Start>>>),
    /// The status that decides whether the upload can start.
    Ready(GetStatusRecv<Start>),
    /// The status while the device handles the address.
    Poll(GetStatusRecv<WaitState<UploadLoop>>),
    /// A chunk of firmware.
    Chunk(UploadChunkRecv),
}

/// Goes on when the device has taken a control transfer.
#[must_use]
pub enum UploadSent {
    /// The status was cleared.
    Cleared(GetStatus<Start>),
    /// The address was set.
    Addressed(WaitState<UploadLoop>),
}

/// Goes on after a sleep.
#[must_use]
pub struct UploadSlept {
    pub command: GetStatus<WaitState<UploadLoop>>,
}

/// Goes on when a chunk has been stored.
#[must_use]
pub struct UploadStored {
    pub recv: UploadChunkRecv,
    pub n: usize,
}

/// Goes on when progress was reported.
#[must_use]
pub struct UploadReported {
    pub recv: UploadChunkRecv,
    pub n: usize,
}

/// An [`UploadAction`], with the request in place of the buffer that the device fills.
pub enum UploadView {
    Read(ReadRequest, UploadReply),
    ClearStatus(UsbWriteControl<[u8; 0]>, UploadSent),
    SetAddress(UsbWriteControl<[u8; 5]>, UploadSent),
    Sleep(u64, UploadSlept),
    Store(Seq<u8>, UploadStored),
    Progress(usize, UploadReported),
    Done,
}

impl<'buf> View for UploadAction<'buf> {
    type V = UploadView;

    open spec fn view(&self) -> UploadView {
        match *self {
            UploadAction::Read(control, next) => UploadView::Read(control@, next),
            UploadAction::ClearStatus(control, next) => UploadView::ClearStatus(control, next),
            UploadAction::SetAddress(control, next) => UploadView::SetAddress(control, next),
            UploadAction::Sleep(poll_timeout, next) => UploadView::Sleep(poll_timeout, next),
            UploadAction::Store(data, next) => UploadView::Store(data@, next),
            UploadAction::Progress(n, next) => UploadView::Progress(n, next),
            UploadAction::Done => UploadView::Done,
        }
    }
}

/// What comes after the loop has got to `upload_loop`, when the host has `room` bytes.
pub open spec fn after_loop(upload_loop: UploadLoop, room: nat) -> UploadView {
    match upload_loop.due() {
        Step::Break => UploadView::Done,
        Step::SetAddress(cmd) => UploadView::SetAddress(
            cmd.request(),
            UploadSent::Addressed(
                WaitState::fresh(State::DfuDnbusy, State::DfuDnloadIdle, cmd.addressed()),
            ),
        ),
        Step::UploadChunk(cmd) => UploadView::Read(
            cmd.request(room),
            UploadReply::Chunk(cmd.receiver()),
        ),
    }
}

/// What comes after a step of the wait for the device.
pub open spec fn after_wait(step: get_status::Step<UploadLoop>, room: nat) -> UploadView {
    match step {
        get_status::Step::Break(upload_loop) => after_loop(upload_loop, room),
        get_status::Step::Wait(command, poll_timeout) => UploadView::Sleep(
            poll_timeout,
            UploadSlept { command },
        ),
    }
}

fn loop_action<'buf>(upload_loop: UploadLoop, buffer: &'buf mut [u8]) -> (r: UploadAction<'buf>)
    ensures
        r@ == after_loop(upload_loop, old(buffer)@.len()),
        r matches UploadAction::Read(control, _) ==> {
            let n = control.buffer@.len() as int;
            &&& control.buffer@ == old(buffer)@.take(n)
            &&& final(buffer)@ == final(control.buffer)@ + old(buffer)@.skip(n)
        },
        r !is Read ==> final(buffer)@ == old(buffer)@,
{
    match upload_loop.next() {
        Step::Break => UploadAction::Done,
        Step::SetAddress(cmd) => {
            let (wait, control) = cmd.set_address();
            UploadAction::SetAddress(control, UploadSent::Addressed(wait))
        },
        Step::UploadChunk(cmd) => {
            let (recv, control) = cmd.upload(buffer);
            UploadAction::Read(control, UploadReply::Chunk(recv))
        },
    }
}

fn wait_action<'buf>(
    step: get_status::Step<UploadLoop>,
    buffer: &'buf mut [u8],
) -> (r: UploadAction<'buf>)
    ensures
        r@ == after_wait(step, old(buffer)@.len()),
        r matches UploadAction::Read(control, _) ==> {
            let n = control.buffer@.len() as int;
            &&& control.buffer@ == old(buffer)@.take(n)
            &&& final(buffer)@ == final(control.buffer)@ + old(buffer)@.skip(n)
        },
        r !is Read ==> final(buffer)@ == old(buffer)@,
{
    match step {
        get_status::Step::Break(upload_loop) => loop_action(upload_loop, buffer),
        get_status::Step::Wait(command, poll_timeout) => UploadAction::Sleep(
            poll_timeout,
            UploadSlept { command },
        ),
    }
}

impl UploadStart {
    /// The first thing that an upload does: it asks for the status.
    pub open spec fn begun(self, room: nat) -> UploadView {
        UploadView::Read(
            get_status::status_request(room),
            UploadReply::Status(GetStatusRecv { chained_command: self.command.chained_command }),
        )
    }

    /// Begins the upload. Answers of the device are to be placed in `buffer`.
    pub fn begin<'buf>(self, buffer: &'buf mut [u8]) -> (r: UploadAction<'buf>)
        ensures
            r@ == self.begun(old(buffer)@.len()),
            r matches UploadAction::Read(control, _) ==> {
                let n = control.buffer@.len() as int;
                &&& control.buffer@ == old(buffer)@.take(n)
                &&& final(buffer)@ == final(control.buffer)@ + old(buffer)@.skip(n)
            },
    {
        let (recv, control) = self.command.get_status(buffer);
        UploadAction::Read(control, UploadReply::Status(recv))
    }
}

impl UploadReply {
    /// What comes after the device has answered with `bytes`.
    pub open spec fn answered(self, bytes: Seq<u8>, room: nat) -> Result<UploadView, Error> {
        match self {
            UploadReply::Status(recv) => match recv.chained(bytes) {
                Err(e) => Err(e),
                Ok((command, None)) => Ok(
                    UploadView::Read(
                        get_status::status_request(room),
                        UploadReply::Ready(
                            GetStatusRecv { chained_command: command.chained_command },
                        ),
                    ),
                ),
                Ok((command, Some(control))) => Ok(
                    UploadView::ClearStatus(control, UploadSent::Cleared(command)),
                ),
            },
            UploadReply::Ready(recv) => match recv.chained(bytes) {
                Err(e) => Err(e),
                Ok(Err(e)) => Err(e),
                Ok(Ok(upload_loop)) => Ok(after_loop(upload_loop, room)),
            },
            UploadReply::Poll(recv) => match synchronous::waited(recv, bytes) {
                Err(e) => Err(e),
                Ok(step) => Ok(after_wait(step, room)),
            },
            UploadReply::Chunk(recv) => Ok(
                UploadView::Store(bytes, UploadStored { recv, n: bytes.len() as usize }),
            ),
        }
    }

    /// Takes in the answer: the first `n` bytes of `buffer`.
    pub fn received<'buf>(self, buffer: &'buf mut [u8], n: usize) -> (r: Result<
        UploadAction<'buf>,
        Error,
    >)
        requires
            n <= old(buffer)@.len(),
        ensures
            match r {
                Err(e) => self.answered(old(buffer)@.take(n as int), old(buffer)@.len())
                    == Err::<UploadView, Error>(e),
                Ok(action) => self.answered(old(buffer)@.take(n as int), old(buffer)@.len())
                    == Ok::<UploadView, Error>(action@),
            },
            r matches Ok(UploadAction::Read(control, _)) ==> {
                let len = control.buffer@.len() as int;
                &&& control.buffer@ == old(buffer)@.take(len)
                &&& final(buffer)@ == final(control.buffer)@ + old(buffer)@.skip(len)
            },
            !(r matches Ok(UploadAction::Read(_, _))) ==> final(buffer)@ == old(buffer)@,
    {
        match self {
            UploadReply::Status(recv) => match recv.chain(buffer.split_at(n).0) {
                Err(e) => Err(e),
                Ok((command, control)) => match control {
                    None => {
                        let (recv, control) = command.get_status(buffer);
                        Ok(UploadAction::Read(control, UploadReply::Ready(recv)))
                    },
                    Some(control) => Ok(
                        UploadAction::ClearStatus(control, UploadSent::Cleared(command)),
                    ),
                },
            },
            UploadReply::Ready(recv) => match recv.chain(buffer.split_at(n).0) {
                Err(e) => Err(e),
                Ok(Err(e)) => Err(e),
                Ok(Ok(upload_loop)) => Ok(loop_action(upload_loop, buffer)),
            },
            UploadReply::Poll(recv) => match wait_for_state(recv, buffer.split_at(n).0) {
                Err(e) => Err(e),
                Ok(step) => Ok(wait_action(step, buffer)),
            },
            UploadReply::Chunk(recv) => Ok(
                UploadAction::Store(buffer.split_at(n).0, UploadStored { recv, n }),
            ),
        }
    }
}

impl UploadSent {
    /// What comes after the device has taken the transfer.
    pub open spec fn taken(self, room: nat) -> UploadView {
        match self {
            UploadSent::Cleared(command) => UploadView::Read(
                get_status::status_request(room),
                UploadReply::Ready(GetStatusRecv { chained_command: command.chained_command }),
            ),
            UploadSent::Addressed(wait) => after_wait(wait.due(), room),
        }
    }

    /// Goes on after the transfer.
    pub fn sent<'buf>(self, buffer: &'buf mut [u8]) -> (r: UploadAction<'buf>)
        ensures
            r@ == self.taken(old(buffer)@.len()),
            r matches UploadAction::Read(control, _) ==> {
                let n = control.buffer@.len() as int;
                &&& control.buffer@ == old(buffer)@.take(n)
                &&& final(buffer)@ == final(control.buffer)@ + old(buffer)@.skip(n)
            },
            r !is Read ==> final(buffer)@ == old(buffer)@,
    {
        match self {
            UploadSent::Cleared(command) => {
                let (recv, control) = command.get_status(buffer);
                UploadAction::Read(control, UploadReply::Ready(recv))
            },
            UploadSent::Addressed(wait) => wait_action(wait.next(), buffer),
        }
    }
}

impl UploadSlept {
    /// What comes after the sleep: the status is asked for.
    pub open spec fn awake(self, room: nat) -> UploadView {
        UploadView::Read(
            get_status::status_request(room),
            UploadReply::Poll(GetStatusRecv { chained_command: self.command.chained_command }),
        )
    }

    /// Goes on after the sleep.
    pub fn slept<'buf>(self, buffer: &'buf mut [u8]) -> (r: UploadAction<'buf>)
        ensures
            r@ == self.awake(old(buffer)@.len()),
            r matches UploadAction::Read(control, _) ==> {
                let n = control.buffer@.len() as int;
                &&& control.buffer@ == old(buffer)@.take(n)
                &&& final(buffer)@ == final(control.buffer)@ + old(buffer)@.skip(n)
            },
    {
        let (recv, control) = self.command.get_status(buffer);
        UploadAction::Read(control, UploadReply::Poll(recv))
    }
}

impl UploadStored {
    /// What comes after the chunk has been stored: its size is reported.
    pub open spec fn written(self) -> UploadView {
        UploadView::Progress(self.n, UploadReported { recv: self.recv, n: self.n })
    }

    /// Goes on after the chunk has been stored.
    pub fn stored<'buf>(self) -> (r: UploadAction<'buf>)
        ensures
            r@ == self.written(),
    {
        UploadAction::Progress(self.n, UploadReported { recv: self.recv, n: self.n })
    }
}

impl UploadReported {
    /// What comes after the report: the chunk counts as read.
    pub open spec fn counted(self, room: nat) -> Result<UploadView, Error> {
        match self.recv.after(self.n as nat) {
            Err(e) => Err(e),
            Ok(upload_loop) => Ok(after_loop(upload_loop, room)),
        }
    }

    /// Goes on after the report.
    pub fn reported<'buf>(self, buffer: &'buf mut [u8]) -> (r: Result<UploadAction<'buf>, Error>)
        ensures
            match r {
                Err(e) => self.counted(old(buffer)@.len()) == Err::<UploadView, Error>(e),
                Ok(action) => self.counted(old(buffer)@.len()) == Ok::<UploadView, Error>(action@),
            },
            r matches Ok(UploadAction::Read(control, _)) ==> {
                let len = control.buffer@.len() as int;
                &&& control.buffer@ == old(buffer)@.take(len)
                &&& final(buffer)@ == final(control.buffer)@ + old(buffer)@.skip(len)
            },
            !(r matches Ok(UploadAction::Read(_, _))) ==> final(buffer)@ == old(buffer)@,
    {
        match self.recv.chain(self.n) {
            Err(e) => Err(e),
            Ok(upload_loop) => Ok(loop_action(upload_loop, buffer)),
        }
    }
}

} // verus!
