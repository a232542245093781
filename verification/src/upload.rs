use crate::command::ChainedCommand;
use crate::control::{ReadRequest, UsbReadControl, UsbWriteControl};
use crate::error::Error;
use crate::functional_descriptor::FunctionalDescriptor;
use crate::get_status::{GetStatusMessage, WaitState};
use crate::state::State;
use vstd::prelude::*;
use vstd::std_specs::convert::FromSpecImpl;

verus! {

pub const REQUEST_TYPE: u8 = 0b00100001;

pub const DFU_UPLOAD: u8 = 2;

pub const DFU_DNLOAD: u8 = 1;

/// Starting point to upload firmware from a device.
#[must_use]
#[derive(Debug)]
pub struct Start {
    pub descriptor: FunctionalDescriptor,
    pub remaining: u32,
    pub protocol: ProtocolData,
}

#[derive(Debug, Clone, Copy)]
pub struct DfuseProtocolData {
    pub address: u32,
    pub address_set: bool,
}

#[derive(Debug, Clone, Copy)]
pub enum ProtocolData {
    Dfu,
    Dfuse(DfuseProtocolData),
}

impl ProtocolData {
    /// Number of the first block: DfuSe keeps the first two for its commands.
    pub open spec fn first_block(self) -> u16 {
        match self {
            ProtocolData::Dfu => 0,
            ProtocolData::Dfuse(_) => 2,
        }
    }
}

impl ChainedCommand for Start {
    type Arg = GetStatusMessage;

    type Into = Result<UploadLoop, Error>;

    /// The upload starts if and only if the device is idle.
    open spec fn chain_spec(self, arg: GetStatusMessage) -> Self::Into {
        if arg.state == State::DfuIdle {
            Ok(
                UploadLoop {
                    descriptor: self.descriptor,
                    remaining: self.remaining,
                    protocol: self.protocol,
                    block_num: self.protocol.first_block(),
                    eof: false,
                },
            )
        } else {
            Err(Error::InvalidState { got: arg.state, expected: State::DfuIdle })
        }
    }

    fn chain(self, arg: GetStatusMessage) -> (r: Self::Into) {
        let state = arg.state;
        if state == State::DfuIdle {
            let block_num: u16 = match self.protocol {
                ProtocolData::Dfu => 0,
                ProtocolData::Dfuse(_) => 2,
            };
            Ok(
                UploadLoop {
                    descriptor: self.descriptor,
                    remaining: self.remaining,
                    protocol: self.protocol,
                    block_num,
                    eof: false,
                },
            )
        } else {
            Err(Error::InvalidState { got: state, expected: State::DfuIdle })
        }
    }
}

/// Upload loop.
#[must_use]
#[derive(Debug)]
pub struct UploadLoop {
    pub descriptor: FunctionalDescriptor,
    pub protocol: ProtocolData,
    /// Bytes still to read.
    pub remaining: u32,
    /// Number of the next block.
    pub block_num: u16,
    /// The device has signalled the end of the firmware.
    pub eof: bool,
}

impl UploadLoop {
    /// The upload is over: the device has signalled the end, or nothing is left to read.
    pub open spec fn finished(self) -> bool {
        self.eof || self.remaining == 0
    }

    /// The device has to be told the address before it is read from.
    pub open spec fn needs_address(self) -> bool {
        self.protocol matches ProtocolData::Dfuse(d) && !d.address_set
    }

    /// The step that is due.
    pub open spec fn due(self) -> Step {
        if self.finished() {
            Step::Break
        } else if self.needs_address() {
            Step::SetAddress(
                SetAddress {
                    descriptor: self.descriptor,
                    remaining: self.remaining,
                    protocol: self.protocol->Dfuse_0,
                    block_num: self.block_num,
                },
            )
        } else {
            Step::UploadChunk(
                UploadChunk {
                    descriptor: self.descriptor,
                    remaining: self.remaining,
                    block_num: self.block_num,
                    protocol: self.protocol,
                },
            )
        }
    }

    /// Get the next step in the upload loop.
    pub fn next(self) -> (r: Step)
        ensures
            r == self.due(),
    {
        if self.eof || self.remaining == 0 {
            return Step::Break;
        }
        match self.protocol {
            ProtocolData::Dfuse(d) if !d.address_set => Step::SetAddress(
                SetAddress {
                    descriptor: self.descriptor,
                    remaining: self.remaining,
                    protocol: d,
                    block_num: self.block_num,
                },
            ),
            _ => Step::UploadChunk(
                UploadChunk {
                    descriptor: self.descriptor,
                    remaining: self.remaining,
                    block_num: self.block_num,
                    protocol: self.protocol,
                },
            ),
        }
    }
}

/// Upload step in the loop.
#[derive(Debug)]
pub enum Step {
    Break,
    SetAddress(SetAddress),
    UploadChunk(UploadChunk),
}

/// Set the address for upload (DfuSe only).
#[must_use]
#[derive(Debug)]
pub struct SetAddress {
    pub descriptor: FunctionalDescriptor,
    pub remaining: u32,
    pub protocol: DfuseProtocolData,
    pub block_num: u16,
}

impl SetAddress {
    /// The loop once the device has taken the address.
    pub open spec fn addressed(self) -> UploadLoop {
        UploadLoop {
            descriptor: self.descriptor,
            remaining: self.remaining,
            protocol: ProtocolData::Dfuse(
                DfuseProtocolData { address: self.protocol.address, address_set: true },
            ),
            block_num: self.block_num,
            eof: false,
        }
    }

    /// The request that tells the device the address.
    pub open spec fn request(self) -> UsbWriteControl<[u8; 5]> {
        UsbWriteControl {
            request_type: REQUEST_TYPE,
            request: DFU_DNLOAD,
            value: 0,
            data: set_address_payload(self.protocol.address),
        }
    }

    /// Set the address for upload.
    pub fn set_address(self) -> (r: (WaitState<UploadLoop>, UsbWriteControl<[u8; 5]>))
        ensures
            r.0 == WaitState::fresh(State::DfuDnbusy, State::DfuDnloadIdle, self.addressed()),
            r.1 == self.request(),
    {
        let next_protocol = ProtocolData::Dfuse(
            DfuseProtocolData { address_set: true, ..self.protocol },
        );
        let next = WaitState::new(
            State::DfuDnbusy,
            State::DfuDnloadIdle,
            UploadLoop {
                descriptor: self.descriptor,
                remaining: self.remaining,
                protocol: next_protocol,
                block_num: self.block_num,
                eof: false,
            },
        );
        let control = UsbWriteControl {
            request_type: REQUEST_TYPE,
            request: DFU_DNLOAD,
            value: 0,
            data: <[u8; 5]>::from(SetAddressCommand(self.protocol.address)),
        };
        (next, control)
    }
}

/// Upload a chunk of firmware from the device.
#[must_use]
#[derive(Debug)]
pub struct UploadChunk {
    pub descriptor: FunctionalDescriptor,
    pub remaining: u32,
    pub block_num: u16,
    pub protocol: ProtocolData,
}

/// The smaller of two sizes.
pub open spec fn min(a: nat, b: nat) -> nat {
    if a < b {
        a
    } else {
        b
    }
}

impl UploadChunk {
    /// Number of bytes to ask for: no more than the host has room for, the device sends at a time
    /// or is left to read.
    pub open spec fn length(self, room: nat) -> nat {
        min(min(room, self.descriptor.transfer_size as nat), self.remaining as nat)
    }

    /// What the device sees of the request when the host has `room` bytes.
    pub open spec fn request(self, room: nat) -> ReadRequest {
        ReadRequest {
            request_type: REQUEST_TYPE,
            request: DFU_UPLOAD,
            value: self.block_num,
            length: self.length(room),
        }
    }

    /// What receives the chunk.
    pub open spec fn receiver(self) -> UploadChunkRecv {
        UploadChunkRecv {
            descriptor: self.descriptor,
            remaining: self.remaining,
            block_num: self.block_num,
            protocol: self.protocol,
            transfer_size: self.descriptor.transfer_size as usize,
        }
    }

    /// Prepare the upload request. The received firmware data will be placed in `buffer`.
    pub fn upload<'buf>(self, buffer: &'buf mut [u8]) -> (r: (
        UploadChunkRecv,
        UsbReadControl<'buf>,
    ))
        ensures
            r.0 == self.receiver(),
            r.1@ == self.request(old(buffer)@.len()),
            r.1.buffer@ == old(buffer)@.take(r.1.buffer@.len() as int),
            final(buffer)@ == final(r.1.buffer)@ + old(buffer)@.skip(r.1.buffer@.len() as int),
    {
        let transfer_size = self.descriptor.transfer_size as usize;
        let mut len: usize = buffer.len();
        if transfer_size < len {
            len = transfer_size;
        }
        if (self.remaining as usize) < len {
            len = self.remaining as usize;
        }
        let (head, _rest) = buffer.split_at_mut(len);
        let control = UsbReadControl {
            request_type: REQUEST_TYPE,
            request: DFU_UPLOAD,
            value: self.block_num,
            buffer: head,
        };
        let recv = UploadChunkRecv {
            descriptor: self.descriptor,
            remaining: self.remaining,
            block_num: self.block_num,
            protocol: self.protocol,
            transfer_size,
        };
        (recv, control)
    }
}

/// Receives the result of a DFU_UPLOAD request.
#[must_use]
#[derive(Debug)]
pub struct UploadChunkRecv {
    pub descriptor: FunctionalDescriptor,
    pub remaining: u32,
    pub block_num: u16,
    pub protocol: ProtocolData,
    pub transfer_size: usize,
}

impl UploadChunkRecv {
    /// The loop after a chunk of `n` bytes. The block number wraps around; a chunk shorter than a
    /// whole transfer is the end of the firmware.
    pub open spec fn after(self, n: nat) -> Result<UploadLoop, Error> {
        if n > u32::MAX {
            Err(Error::MaximumTransferSizeExceeded)
        } else {
            Ok(
                UploadLoop {
                    descriptor: self.descriptor,
                    remaining: if n < self.remaining {
                        (self.remaining - n) as u32
                    } else {
                        0
                    },
                    protocol: self.protocol,
                    block_num: ((self.block_num + 1) % 0x1_0000) as u16,
                    eof: n < self.transfer_size,
                },
            )
        }
    }

    /// Processes the upload result. `n` is the number of bytes received.
    pub fn chain(self, n: usize) -> (r: Result<UploadLoop, Error>)
        ensures
            r == self.after(n as nat),
    {
        if n > u32::MAX as usize {
            return Err(Error::MaximumTransferSizeExceeded);
        }
        let n32: u32 = n as u32;
        Ok(
            UploadLoop {
                descriptor: self.descriptor,
                remaining: self.remaining.saturating_sub(n32),
                protocol: self.protocol,
                block_num: self.block_num.wrapping_add(1),
                eof: n < self.transfer_size,
            },
        )
    }
}

/// The DfuSe command that sets the address of the data transfers.
#[derive(Debug, Clone, Copy)]
pub struct SetAddressCommand(pub u32);

/// The payload of the command: its code, then the address, the lowest byte first.
pub open spec fn set_address_payload(address: u32) -> [u8; 5] {
    [
        0x21,
        (address % 0x100) as u8,
        (address / 0x100 % 0x100) as u8,
        (address / 0x1_0000 % 0x100) as u8,
        (address / 0x100_0000) as u8,
    ]
}

impl FromSpecImpl<SetAddressCommand> for [u8; 5] {
    open spec fn obeys_from_spec() -> bool {
        true
    }

    open spec fn from_spec(cmd: SetAddressCommand) -> [u8; 5] {
        set_address_payload(cmd.0)
    }
}

impl From<SetAddressCommand> for [u8; 5] {
    fn from(cmd: SetAddressCommand) -> (r: [u8; 5]) {
        let mut buf = [0u8; 5];
        buf[0] = 0x21;
        buf[1] = (cmd.0 % 0x100) as u8;
        buf[2] = (cmd.0 / 0x100 % 0x100) as u8;
        buf[3] = (cmd.0 / 0x1_0000 % 0x100) as u8;
        buf[4] = (cmd.0 / 0x100_0000) as u8;
        assert(buf@ =~= set_address_payload(cmd.0)@);
        buf
    }
}

} // verus!
