use dfu_core::buffer::Buffer;
use dfu_core::control::UsbWriteControl;
use dfu_core::download_session::{DownloadAction, DownloadFill, DownloadStep};
use dfu_core::error::Error;
use dfu_core::functional_descriptor::FunctionalDescriptor;
use dfu_core::get_status::{ClearStatus, GetStatus, GetStatusMessage, WaitState};
use dfu_core::io::DfuIo;
use dfu_core::sans_io::DfuProtocol;
use dfu_core::state::State;
use dfu_core::synchronous::DfuSync;
use dfu_core::upload::SetAddressCommand;

/// Start of a download that erases, sets the address, then sends chunks up to an empty one.
struct Start {
    reset: bool,
    address: u32,
}

#[derive(Clone, Copy)]
struct Loop {
    address: u32,
    erased: bool,
    addressed: bool,
    eof: bool,
    reset: bool,
}

impl Start {
    fn start(self, arg: GetStatusMessage) -> Result<Loop, Error> {
        if arg.state == State::DfuIdle {
            Ok(Loop {
                address: self.address,
                erased: false,
                addressed: false,
                eof: false,
                reset: self.reset,
            })
        } else {
            Err(Error::InvalidState {
                got: arg.state,
                expected: State::DfuIdle,
            })
        }
    }
}

fn write(request: u8, data: &[u8]) -> UsbWriteControl<Vec<u8>> {
    UsbWriteControl {
        request_type: 0x21,
        request,
        value: 0,
        data: data.to_vec(),
    }
}

fn wait(next: Loop) -> WaitState<Loop> {
    WaitState::new(State::DfuDnbusy, State::DfuDnloadIdle, next)
}

fn next(l: Loop) -> DownloadStep<Loop, Loop, Vec<u8>> {
    if l.eof {
        if l.reset {
            DownloadStep::UsbReset
        } else {
            DownloadStep::Break
        }
    } else if !l.erased {
        DownloadStep::Erase(wait(Loop { erased: true, ..l }), write(1, &[0x41]))
    } else if !l.addressed {
        DownloadStep::SetAddress(
            wait(Loop {
                addressed: true,
                ..l
            }),
            write(1, &<[u8; 5]>::from(SetAddressCommand(l.address))),
        )
    } else {
        DownloadStep::DownloadChunk(l)
    }
}

fn descriptor() -> FunctionalDescriptor {
    FunctionalDescriptor {
        can_download: true,
        can_upload: false,
        manifestation_tolerant: true,
        will_detach: false,
        detach_timeout: 0,
        transfer_size: 8,
    }
}

/// Tells of a device.
struct Io {
    protocol: DfuProtocol,
    descriptor: FunctionalDescriptor,
}

impl DfuIo for Io {
    type Read = usize;
    type Write = usize;
    type Reset = ();
    type Error = Error;

    fn read_control(&self, _: u8, _: u8, _: u16, _: &mut [u8]) -> Result<usize, Error> {
        panic!("nothing is read through this");
    }

    fn write_control(&self, _: u8, _: u8, _: u16, _: &[u8]) -> Result<usize, Error> {
        panic!("nothing is written through this");
    }

    fn usb_reset(self) -> Result<(), Error> {
        Ok(())
    }

    fn protocol(&self) -> &DfuProtocol {
        &self.protocol
    }

    fn functional_descriptor(&self) -> &FunctionalDescriptor {
        &self.descriptor
    }
}

fn dfu_sync(protocol: DfuProtocol) -> DfuSync<Io, ()> {
    DfuSync::new(Io {
        protocol,
        descriptor: descriptor(),
    })
}

struct Outcome {
    stayed: bool,
    log: Vec<String>,
    received: Vec<u8>,
    progress: Vec<usize>,
    addresses: Vec<Vec<u8>>,
}

/// Downloads `source`, read `at_once` bytes at a time, into a device that takes at most `accepts`
/// bytes of a chunk and first reports `state`.
fn download(
    source: &[u8],
    at_once: usize,
    accepts: usize,
    state: u8,
    reset: bool,
) -> Result<Outcome, Error> {
    let mut dfu = dfu_sync(DfuProtocol::Dfu);
    run(&mut dfu, source, at_once, accepts, state, reset)
}

fn run(
    dfu: &mut DfuSync<Io, ()>,
    source: &[u8],
    at_once: usize,
    accepts: usize,
    mut state: u8,
    reset: bool,
) -> Result<Outcome, Error> {
    let (mut reader, fill) = dfu.download_from_slice::<Loop>(source)?;
    let (io, buffer, _) = dfu.parts();
    let mut position = 0;
    let mut busy = false;
    let mut outcome = Outcome {
        stayed: false,
        log: Vec::new(),
        received: Vec::new(),
        progress: Vec::new(),
        addresses: Vec::new(),
    };
    let mut action: DownloadAction<'_, Start, Loop, Loop, Vec<u8>> = fill.begin(&mut reader);
    loop {
        action = match action {
            DownloadAction::Fill(next) => {
                let n = reader.room().min(at_once).min(source.len() - position);
                position += n;
                next.filled(&mut reader, &source[position - n..position])
            }
            DownloadAction::Prepare(dfu, length, next) => {
                assert_eq!(dfu.descriptor, descriptor());
                let address = dfu.transfer_address(io.protocol()).unwrap_or(0);
                outcome.log.push(format!("prepare {}", length));
                let command = GetStatus {
                    chained_command: ClearStatus {
                        chained_command: GetStatus {
                            chained_command: Start { reset, address },
                        },
                    },
                };
                next.prepared(command, buffer)
            }
            DownloadAction::Read(c, next) => {
                assert_eq!((c.request_type, c.request), (0xa1, 3));
                let reported = if busy {
                    busy = false;
                    4
                } else {
                    state
                };
                c.buffer.copy_from_slice(&[0, 9, 0, 0, reported, 0]);
                next.received(buffer, 6)?
            }
            DownloadAction::ClearStatus(c, next) => {
                assert_eq!((c.request_type, c.request), (0x21, 4));
                outcome.log.push("clear".to_string());
                state = 2;
                next.sent(buffer)
            }
            DownloadAction::Start(cmd, message, next) => next.started(cmd.start(message)?),
            DownloadAction::Next(l, token) => token.step(next(l), &mut reader),
            DownloadAction::Chunk(l, data, token) => {
                outcome.log.push(format!("chunk {}", data.len()));
                let eof = data.is_empty();
                token.prepared(wait(Loop { eof, ..l }), write(9, data))
            }
            DownloadAction::Write(c, next) => {
                state = 5;
                busy = true;
                let n = if c.request == 9 {
                    let n = c.data.len().min(accepts);
                    outcome.received.extend_from_slice(&c.data[..n]);
                    n
                } else {
                    outcome.log.push(format!("command {:x}", c.data[0]));
                    if c.data[0] == 0x21 {
                        outcome.addresses.push(c.data[1..].to_vec());
                    }
                    c.data.len()
                };
                next.sent(&mut reader, n)
            }
            DownloadAction::Progress(n, next) => {
                outcome.progress.push(n);
                next.reported()
            }
            DownloadAction::Sleep(poll_timeout, next) => {
                outcome.log.push(format!("sleep {}", poll_timeout));
                next.slept(buffer)
            }
            DownloadAction::UsbReset => {
                outcome.log.push("reset".to_string());
                return Ok(outcome);
            }
            DownloadAction::Break => {
                outcome.stayed = true;
                return Ok(outcome);
            }
        };
    }
}

fn firmware(size: usize) -> Vec<u8> {
    (0..size).map(|i| (i * 7) as u8).collect()
}

#[test]
fn download_sends_the_source_in_order() {
    let source = firmware(20);
    let outcome = download(&source, 3, 8, 2, false).unwrap();
    assert_eq!(outcome.received, source);
    assert_eq!(outcome.progress, vec![8, 8, 4, 0]);
    assert!(outcome.stayed);
    assert_eq!(
        outcome.log[..8],
        [
            "prepare 20",
            "command 41",
            "sleep 0",
            "sleep 9",
            "command 21",
            "sleep 0",
            "sleep 9",
            "chunk 8"
        ]
    );
}

#[test]
fn download_goes_on_where_the_device_stopped() {
    let source = firmware(20);
    let outcome = download(&source, 100, 5, 2, false).unwrap();
    assert_eq!(outcome.received, source);
    assert_eq!(outcome.progress, vec![5, 5, 5, 5, 0]);
    assert_eq!(outcome.progress.iter().sum::<usize>(), source.len());
}

#[test]
fn download_of_nothing_sends_nothing() {
    let outcome = download(&[], 3, 8, 2, true).unwrap();
    assert!(outcome.stayed);
    assert!(outcome.log.is_empty());
}

#[test]
fn download_that_resets_the_device_leaves_the_bus() {
    let outcome = download(&firmware(4), 3, 8, 2, true).unwrap();
    assert!(!outcome.stayed);
    assert_eq!(outcome.log.last().unwrap(), "reset");
}

#[test]
fn download_clears_the_status_of_a_device_in_error() {
    let outcome = download(&firmware(4), 3, 8, 10, false).unwrap();
    assert_eq!(outcome.log[..2], ["prepare 4", "clear"]);
    assert_eq!(outcome.received, firmware(4));
}

#[test]
fn download_into_a_device_that_is_not_idle_fails() {
    assert_eq!(
        download(&firmware(4), 3, 8, 7, false).err(),
        Some(Error::InvalidState {
            got: State::DfuManifest,
            expected: State::DfuIdle,
        })
    );
}

fn dfuse() -> DfuSync<Io, ()> {
    dfu_sync(DfuProtocol::Dfuse {
        address: 0x08000000,
        memory_layout: vec![16, 16],
    })
}

#[test]
fn download_dfuse_goes_to_the_address_of_the_protocol() {
    let outcome = run(&mut dfuse(), &firmware(20), 8, 8, 2, false).unwrap();
    assert_eq!(outcome.received, firmware(20));
    assert_eq!(outcome.addresses, vec![vec![0x00, 0x00, 0x00, 0x08]]);
}

#[test]
fn download_dfuse_override_address() {
    let mut dfu = dfuse();
    dfu.override_address(0x08008000).override_address(0x08004000);
    let outcome = run(&mut dfu, &firmware(20), 8, 8, 2, false).unwrap();
    assert_eq!(outcome.received, firmware(20));
    assert_eq!(outcome.addresses, vec![vec![0x00, 0x40, 0x00, 0x08]]);

    let (_, fill) = dfu.download::<()>(6);
    match fill {
        DownloadFill::First(sans_io, 6) => {
            assert_eq!(sans_io.override_address, Some(0x08004000));
            assert_eq!(sans_io.transfer_address(dfu.io().protocol()), Some(0x08004000));
            assert_eq!(sans_io.transfer_address(&DfuProtocol::Dfu), None);
        }
        _ => panic!("not the first fill"),
    }
}

#[test]
fn download_all_counts_in_32_bits() {
    let dfu = dfu_sync(DfuProtocol::Dfu);
    assert_eq!(
        dfu.download_all::<()>(0x1_0000_0000).err(),
        Some(Error::MaximumTransferSizeExceeded)
    );
    let (reader, fill) = dfu.download_all::<()>(0xffff_ffff).ok().unwrap();
    assert_eq!(reader.room(), 8);
    assert!(matches!(fill, DownloadFill::First(_, 0xffff_ffff)));
    let (reader, fill) = dfu.download::<()>(77);
    assert_eq!(reader.room(), 8);
    assert!(matches!(fill, DownloadFill::First(_, 77)));
}

#[test]
fn buffer_is_filled_and_consumed() {
    let mut buffer = Buffer::new(6);
    assert_eq!(buffer.room(), 6);
    assert!(buffer.fill_buf(&[1, 2, 3, 4]));
    assert_eq!(buffer.bytes(), [1, 2, 3, 4]);
    assert_eq!(buffer.room(), 2);
    buffer.consume(3);
    assert_eq!(buffer.bytes(), [4]);
    assert!(!buffer.fill_buf(&[5, 6, 7, 8, 9]));
    assert_eq!(buffer.bytes(), [4, 5, 6, 7, 8, 9]);
    buffer.consume(6);
    assert!(buffer.bytes().is_empty());
    assert!(!buffer.fill_buf(&[]));
    assert!(buffer.fill_buf(&[1]));
    buffer.consume(100);
    assert!(buffer.bytes().is_empty());
    assert_eq!(buffer.room(), 6);
}
