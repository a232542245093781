use std::cell::{Cell, RefCell};

use dfu_core::command::ChainedCommand;
use dfu_core::download_session::DownloadFill;
use dfu_core::error::Error;
use dfu_core::functional_descriptor::FunctionalDescriptor;
use dfu_core::get_status;
use dfu_core::get_status::{ClearStatus, GetStatus, GetStatusMessage, WaitState};
use dfu_core::io::DfuIo;
use dfu_core::sans_io::{DfuProtocol, DfuSansIo};
use dfu_core::state::State;
use dfu_core::synchronous::{wait_for_state, DfuSync};
use dfu_core::upload::{
    DfuseProtocolData, ProtocolData, SetAddress, SetAddressCommand, Start, Step, UploadChunk,
    UploadChunkRecv, UploadLoop,
};

fn descriptor() -> FunctionalDescriptor {
    FunctionalDescriptor {
        can_download: true,
        can_upload: true,
        manifestation_tolerant: true,
        will_detach: false,
        detach_timeout: 250,
        transfer_size: 64,
    }
}

fn message(state: State) -> GetStatusMessage {
    GetStatusMessage {
        status: 0,
        poll_timeout: 30,
        state,
        index: 0,
    }
}

fn dfuse(address_set: bool) -> ProtocolData {
    ProtocolData::Dfuse(DfuseProtocolData {
        address: 0x08004000,
        address_set,
    })
}

fn upload_loop(protocol: ProtocolData, remaining: u32, eof: bool) -> UploadLoop {
    UploadLoop {
        descriptor: descriptor(),
        protocol,
        remaining,
        block_num: 9,
        eof,
    }
}

#[test]
fn status_is_decoded() {
    let decoded = GetStatusMessage::decode(&[1, 0x10, 0x20, 0x03, 5, 8, 99]);
    assert_eq!(
        decoded,
        Ok(GetStatusMessage {
            status: 1,
            poll_timeout: 0x032010,
            state: State::DfuDnloadIdle,
            index: 8,
        })
    );
}

#[test]
fn short_status_is_refused() {
    assert_eq!(
        GetStatusMessage::decode(&[0, 0, 0, 0, 2]),
        Err(Error::ResponseTooShort {
            got: 5,
            expected: 6
        })
    );
}

#[test]
fn unknown_state_is_refused() {
    assert_eq!(
        GetStatusMessage::decode(&[0, 0, 0, 0, 11, 0]),
        Err(Error::UnrecognizedStateCode(11))
    );
}

#[test]
fn every_state_has_its_code() {
    let states = [
        State::AppIdle,
        State::AppDetach,
        State::DfuIdle,
        State::DfuDnloadSync,
        State::DfuDnbusy,
        State::DfuDnloadIdle,
        State::DfuManifestSync,
        State::DfuManifest,
        State::DfuManifestWaitReset,
        State::DfuUploadIdle,
        State::DfuError,
    ];
    for code in 0..=255u8 {
        assert_eq!(State::from_code(code), states.get(code as usize).copied());
    }
}

#[test]
fn status_request_fits_the_buffer() {
    let mut buffer = [7u8; 10];
    let (recv, control) = GetStatus { chained_command: 5u8 }.get_status(&mut buffer);
    assert_eq!(recv.chained_command, 5);
    assert_eq!(control.request_type, 0xa1);
    assert_eq!(control.request, 3);
    assert_eq!(control.value, 0);
    assert_eq!(control.buffer.len(), 6);

    let mut small = [7u8; 4];
    let (_, control) = GetStatus { chained_command: 5u8 }.get_status(&mut small);
    assert_eq!(control.buffer.len(), 4);
}

#[test]
fn only_an_error_is_cleared() {
    let (command, control) = ClearStatus { chained_command: 3u8 }.chain(message(State::DfuError));
    assert_eq!(command, 3);
    let control = control.unwrap();
    assert_eq!(
        (control.request_type, control.request, control.value),
        (0x21, 4, 0)
    );
    let (_, control) = ClearStatus { chained_command: 3u8 }.chain(message(State::DfuIdle));
    assert!(control.is_none());
}

#[test]
fn wait_goes_on_until_the_state_is_reached() {
    let wait = WaitState::new(State::DfuDnbusy, State::DfuDnloadIdle, 'x');
    let (gs, poll_timeout) = match wait.next() {
        get_status::Step::Wait(gs, poll_timeout) => (gs, poll_timeout),
        get_status::Step::Break(_) => panic!("over too early"),
    };
    assert_eq!(poll_timeout, 0);
    let mut buffer = [0u8; 6];
    let (recv, _) = gs.get_status(&mut buffer);
    let (gs, poll_timeout) = match wait_for_state(recv, &[0, 50, 1, 0, 4, 0]) {
        Ok(get_status::Step::Wait(gs, poll_timeout)) => (gs, poll_timeout),
        _ => panic!("over too early"),
    };
    assert_eq!(poll_timeout, 306);
    let (recv, _) = gs.get_status(&mut buffer);
    match wait_for_state(recv, &[0, 0, 0, 0, 5, 0]) {
        Ok(get_status::Step::Break(command)) => assert_eq!(command, 'x'),
        _ => panic!("not over"),
    }
}

#[test]
fn wait_fails_in_any_other_state() {
    let wait = WaitState::new(State::DfuDnbusy, State::DfuDnloadIdle, ());
    assert_eq!(
        wait.chain(message(State::DfuError)).err(),
        Some(Error::InvalidState {
            got: State::DfuError,
            expected: State::DfuDnloadIdle,
        })
    );
}

#[test]
fn upload_starts_from_the_first_block() {
    let start = |protocol| Start {
        descriptor: descriptor(),
        remaining: 100,
        protocol,
    };
    let dfu = start(ProtocolData::Dfu).chain(message(State::DfuIdle)).unwrap();
    assert_eq!((dfu.block_num, dfu.remaining, dfu.eof), (0, 100, false));
    let dfuse = start(dfuse(false)).chain(message(State::DfuIdle)).unwrap();
    assert_eq!((dfuse.block_num, dfuse.remaining, dfuse.eof), (2, 100, false));
    assert_eq!(
        start(ProtocolData::Dfu)
            .chain(message(State::AppIdle))
            .err(),
        Some(Error::InvalidState {
            got: State::AppIdle,
            expected: State::DfuIdle,
        })
    );
}

#[test]
fn upload_loop_steps() {
    assert!(matches!(
        upload_loop(ProtocolData::Dfu, 10, true).next(),
        Step::Break
    ));
    assert!(matches!(
        upload_loop(dfuse(false), 0, false).next(),
        Step::Break
    ));
    assert!(matches!(
        upload_loop(dfuse(false), 10, false).next(),
        Step::SetAddress(SetAddress {
            remaining: 10,
            block_num: 9,
            ..
        })
    ));
    assert!(matches!(
        upload_loop(dfuse(true), 10, false).next(),
        Step::UploadChunk(UploadChunk {
            remaining: 10,
            block_num: 9,
            ..
        })
    ));
    assert!(matches!(
        upload_loop(ProtocolData::Dfu, 10, false).next(),
        Step::UploadChunk(_)
    ));
}

#[test]
fn address_is_set_lowest_byte_first() {
    assert_eq!(
        <[u8; 5]>::from(SetAddressCommand(0x12345678)),
        [0x21, 0x78, 0x56, 0x34, 0x12]
    );
    let cmd = match upload_loop(dfuse(false), 10, false).next() {
        Step::SetAddress(cmd) => cmd,
        _ => panic!("no address to set"),
    };
    let (wait, control) = cmd.set_address();
    assert_eq!(
        (control.request_type, control.request, control.value),
        (0x21, 1, 0)
    );
    assert_eq!(control.data, [0x21, 0x00, 0x40, 0x00, 0x08]);
    assert_eq!(wait.intermediate, State::DfuDnbusy);
    assert_eq!(wait.state, State::DfuDnloadIdle);
    assert!(matches!(
        wait.chained_command.next(),
        Step::UploadChunk(UploadChunk {
            remaining: 10,
            block_num: 9,
            ..
        })
    ));
}

#[test]
fn chunk_request_takes_the_smallest_size() {
    let chunk = |remaining| UploadChunk {
        descriptor: descriptor(),
        remaining,
        block_num: 9,
        protocol: ProtocolData::Dfu,
    };
    let mut buffer = [0u8; 100];
    let (recv, control) = chunk(1000).upload(&mut buffer);
    assert_eq!(recv.transfer_size, 64);
    assert_eq!(
        (control.request_type, control.request, control.value),
        (0x21, 2, 9)
    );
    assert_eq!(control.buffer.len(), 64);
    assert_eq!(chunk(10).upload(&mut buffer).1.buffer.len(), 10);
    assert_eq!(chunk(1000).upload(&mut buffer[..33]).1.buffer.len(), 33);
}

#[test]
fn chunk_result_is_counted() {
    let recv = |block_num| UploadChunkRecv {
        descriptor: descriptor(),
        remaining: 100,
        block_num,
        protocol: ProtocolData::Dfu,
        transfer_size: 64,
    };
    let whole = recv(9).chain(64).unwrap();
    assert_eq!((whole.remaining, whole.block_num, whole.eof), (36, 10, false));
    let short = recv(9).chain(63).unwrap();
    assert_eq!((short.remaining, short.block_num, short.eof), (37, 10, true));
    let wrapped = recv(0xffff).chain(200).unwrap();
    assert_eq!((wrapped.remaining, wrapped.block_num, wrapped.eof), (0, 0, false));
    assert_eq!(
        recv(9).chain(u32::MAX as usize + 1).err(),
        Some(Error::MaximumTransferSizeExceeded)
    );
    assert!(recv(9).chain(u32::MAX as usize).is_ok());
}

#[test]
fn override_address_is_only_used_with_dfuse() {
    let mut dfu = DfuSansIo::new(descriptor());
    dfu.set_address(0x1000);
    let standard = dfu.upload(&DfuProtocol::Dfu, 5).unwrap();
    let start = standard.chained_command.chained_command.chained_command;
    assert_eq!(start.remaining, 5);
    assert!(matches!(start.protocol, ProtocolData::Dfu));
    let dfuse = DfuProtocol::Dfuse {
        address: 0x2000,
        memory_layout: vec![],
    };
    let start = dfu
        .upload(&dfuse, 5)
        .unwrap()
        .chained_command
        .chained_command
        .chained_command;
    assert!(matches!(
        start.protocol,
        ProtocolData::Dfuse(DfuseProtocolData {
            address: 0x1000,
            address_set: false
        })
    ));
}

/// Device that describes itself otherwise each time that it is asked, and refuses what it is told
/// to refuse.
struct Io {
    protocol: DfuProtocol,
    descriptors: Vec<FunctionalDescriptor>,
    asked: Cell<usize>,
    writes: RefCell<Vec<(u8, u8, u16, Vec<u8>)>>,
    refusal: Option<&'static str>,
}

impl Io {
    fn new() -> Io {
        Io {
            protocol: DfuProtocol::Dfu,
            descriptors: vec![descriptor()],
            asked: Cell::new(0),
            writes: RefCell::new(Vec::new()),
            refusal: None,
        }
    }
}

impl DfuIo for Io {
    type Read = usize;
    type Write = usize;
    type Reset = &'static str;
    type Error = &'static str;

    fn read_control(&self, _: u8, _: u8, _: u16, _: &mut [u8]) -> Result<usize, Self::Error> {
        panic!("nothing is read here");
    }

    fn write_control(
        &self,
        request_type: u8,
        request: u8,
        value: u16,
        buffer: &[u8],
    ) -> Result<usize, Self::Error> {
        if let Some(refusal) = self.refusal {
            return Err(refusal);
        }
        let write = (request_type, request, value, buffer.to_vec());
        self.writes.borrow_mut().push(write);
        Ok(buffer.len())
    }

    fn usb_reset(self) -> Result<Self::Reset, Self::Error> {
        match self.refusal {
            Some(refusal) => Err(refusal),
            None => Ok("reset"),
        }
    }

    fn protocol(&self) -> &DfuProtocol {
        &self.protocol
    }

    fn functional_descriptor(&self) -> &FunctionalDescriptor {
        let asked = self.asked.get();
        self.asked.set(asked + 1);
        &self.descriptors[asked.min(self.descriptors.len() - 1)]
    }
}

#[test]
fn dfu_sync_tells_of_its_device() {
    let mut dfu: DfuSync<Io, ()> = DfuSync::new(Io::new());
    assert!(!dfu.will_detach());
    assert!(dfu.manifestation_tolerant());
    assert!(matches!(dfu.io().protocol(), DfuProtocol::Dfu));
    let (io, buffer, progress) = dfu.parts();
    assert!(matches!(io.protocol(), DfuProtocol::Dfu));
    assert_eq!(*buffer, [0; 64]);
    assert!(progress.is_none());
    dfu.with_progress(()).override_address(3);
    assert!(dfu.parts().2.is_some());
    assert_eq!(dfu.into_inner().descriptors, vec![descriptor()]);
}

#[test]
fn dfu_sync_asks_its_device_again() {
    let mut io = Io::new();
    let sized = |transfer_size: u16| FunctionalDescriptor {
        transfer_size,
        ..descriptor()
    };
    io.descriptors = vec![
        sized(5),
        sized(9),
        sized(3),
        FunctionalDescriptor {
            will_detach: true,
            ..descriptor()
        },
        FunctionalDescriptor {
            manifestation_tolerant: false,
            ..descriptor()
        },
    ];
    let mut dfu: DfuSync<Io, ()> = DfuSync::new(io);
    assert_eq!(dfu.io().asked.get(), 2);
    assert_eq!(dfu.parts().1.len(), 5);
    let (reader, fill) = dfu.download::<()>(7);
    assert_eq!(reader.room(), 3);
    match fill {
        DownloadFill::First(sans_io, 7) => assert_eq!(sans_io.descriptor.transfer_size, 9),
        _ => panic!("not the first fill"),
    }
    assert!(dfu.will_detach());
    assert!(!dfu.manifestation_tolerant());
    assert_eq!(dfu.io().asked.get(), 5);
}

#[test]
fn detach_is_sent_with_the_timeout_of_the_device() {
    let dfu: DfuSync<Io, ()> = DfuSync::new(Io::new());
    assert_eq!(dfu.detach(), Ok(()));
    assert_eq!(*dfu.io().writes.borrow(), vec![(0x21, 0, 250, vec![])]);

    let mut io = Io::new();
    io.refusal = Some("stall");
    let dfu: DfuSync<Io, ()> = DfuSync::new(io);
    assert_eq!(dfu.detach(), Err("stall"));
}

#[test]
fn reset_gives_what_the_device_gives() {
    let dfu: DfuSync<Io, ()> = DfuSync::new(Io::new());
    assert_eq!(dfu.usb_reset(), Ok("reset"));

    let mut io = Io::new();
    io.refusal = Some("gone");
    let dfu: DfuSync<Io, ()> = DfuSync::new(io);
    assert_eq!(dfu.usb_reset(), Err("gone"));
}

#[test]
fn entire_length_is_the_size_of_the_memory() {
    let dfuse = |memory_layout: Vec<u32>| DfuProtocol::Dfuse {
        address: 0x08000000,
        memory_layout,
    };
    assert_eq!(DfuProtocol::Dfu.entire_length(), Some(u32::MAX));
    assert_eq!(dfuse(vec![]).entire_length(), Some(0));
    assert_eq!(dfuse(vec![16, 16, 64]).entire_length(), Some(96));
    assert_eq!(dfuse(vec![u32::MAX - 1, 1]).entire_length(), Some(u32::MAX));
    assert_eq!(dfuse(vec![u32::MAX, 1]).entire_length(), None);
    assert_eq!(dfuse(vec![u32::MAX, 1, 0, u32::MAX]).entire_length(), None);
}
