use std::cell::{Cell, RefCell};
use std::rc::Rc;

use dfu_core::error::Error;
use dfu_core::functional_descriptor::FunctionalDescriptor;
use dfu_core::io::DfuIo;
use dfu_core::sans_io::DfuProtocol;
use dfu_core::state::State;
use dfu_core::synchronous::DfuSync;
use dfu_core::upload_session::{UploadAction, UploadStart};

const TRANSFER_SIZE: usize = 6;
const ADDRESS: u32 = 0x08000000;

/// Device that hands `upload_data` out, block by block.
struct MockIO {
    can_upload: bool,
    dfuse: bool,
    memory_layout: Vec<u32>,
    address: Option<u32>,
    upload_data: Vec<u8>,
    state: Cell<u8>,
    busy: Cell<usize>,
    latency: usize,
    poll_timeout: u8,
    pointer: Cell<Option<u32>>,
    position: Cell<usize>,
    blocks: RefCell<Vec<u16>>,
    writes: RefCell<Vec<(u8, u8, u16, Vec<u8>)>>,
    sleeps: RefCell<Vec<u64>>,
    /// What the device speaks first, and from the second time that it is asked.
    protocols: [DfuProtocol; 2],
    protocol_asked: Cell<usize>,
    descriptor: FunctionalDescriptor,
}

impl MockIO {
    fn new() -> Self {
        MockIO {
            can_upload: false,
            dfuse: false,
            memory_layout: vec![16, 16, 16, 64, 128],
            address: None,
            upload_data: Vec::new(),
            state: Cell::new(2),
            busy: Cell::new(0),
            latency: 2,
            poll_timeout: 7,
            pointer: Cell::new(None),
            position: Cell::new(0),
            blocks: RefCell::new(Vec::new()),
            writes: RefCell::new(Vec::new()),
            sleeps: RefCell::new(Vec::new()),
            protocols: [DfuProtocol::Dfu, DfuProtocol::Dfu],
            protocol_asked: Cell::new(0),
            descriptor: FunctionalDescriptor {
                can_download: true,
                can_upload: false,
                manifestation_tolerant: false,
                will_detach: false,
                detach_timeout: 100,
                transfer_size: TRANSFER_SIZE as u16,
            },
        }
    }

    fn speak(&self) -> DfuProtocol {
        if self.dfuse {
            DfuProtocol::Dfuse {
                address: ADDRESS,
                memory_layout: self.memory_layout.clone(),
            }
        } else {
            DfuProtocol::Dfu
        }
    }

    fn build(mut self) -> Self {
        self.protocols = [self.speak(), self.speak()];
        self.descriptor.can_upload = self.can_upload;
        self
    }

    fn size(&self) -> u32 {
        if self.dfuse {
            self.memory_layout.iter().sum()
        } else {
            self.upload_data.len() as u32
        }
    }

}

impl DfuIo for MockIO {
    type Read = usize;
    type Write = usize;
    type Reset = ();
    type Error = Error;

    fn functional_descriptor(&self) -> &FunctionalDescriptor {
        &self.descriptor
    }

    fn protocol(&self) -> &DfuProtocol {
        let asked = self.protocol_asked.get();
        self.protocol_asked.set(asked + 1);
        &self.protocols[asked.min(1)]
    }

    fn usb_reset(self) -> Result<(), Error> {
        Ok(())
    }

    fn read_control(
        &self,
        request_type: u8,
        request: u8,
        value: u16,
        buffer: &mut [u8],
    ) -> Result<usize, Error> {
        let n = match request {
            3 => {
                assert_eq!(request_type, 0b10100001);
                assert_eq!(value, 0);
                assert_eq!(buffer.len(), 6);
                if self.state.get() == 4 {
                    if self.busy.get() > 0 {
                        self.busy.set(self.busy.get() - 1);
                    } else {
                        self.state.set(5);
                    }
                }
                buffer.copy_from_slice(&[0, self.poll_timeout, 0, 0, self.state.get(), 0]);
                6
            }
            2 => {
                assert_eq!(request_type, 0b00100001);
                self.blocks.borrow_mut().push(value);
                let position = if self.dfuse {
                    assert_eq!(self.pointer.get(), Some(self.address.unwrap_or(ADDRESS)));
                    (value as usize - 2) * TRANSFER_SIZE
                } else {
                    self.position.get()
                };
                let rest = &self.upload_data[position..];
                let n = rest.len().min(buffer.len());
                buffer[..n].copy_from_slice(&rest[..n]);
                self.position.set(self.position.get() + n);
                n
            }
            _ => panic!("unexpected request {}", request),
        };
        Ok(n)
    }

    fn write_control(
        &self,
        request_type: u8,
        request: u8,
        value: u16,
        buffer: &[u8],
    ) -> Result<usize, Error> {
        self.writes
            .borrow_mut()
            .push((request_type, request, value, buffer.to_vec()));
        match request {
            4 => self.state.set(2),
            1 => {
                assert_eq!(buffer[0], 0x21);
                self.pointer.set(Some(u32::from_le_bytes([
                    buffer[1], buffer[2], buffer[3], buffer[4],
                ])));
                self.state.set(4);
                self.busy.set(self.latency);
            }
            _ => panic!("unexpected request {}", request),
        }
        Ok(buffer.len())
    }
}

type Progress = Box<dyn FnMut(usize)>;

fn dfu_sync(mock: MockIO) -> DfuSync<MockIO, Progress> {
    DfuSync::new(mock.build())
}

fn drive(
    dfu: &mut DfuSync<MockIO, Progress>,
    start: UploadStart,
    output: &mut Vec<u8>,
) -> Result<(), Error> {
    let (io, buffer, progress) = dfu.parts();
    let mut action = start.begin(buffer);
    loop {
        action = match action {
            UploadAction::Read(c, next) => {
                let n = io.read_control(c.request_type, c.request, c.value, c.buffer)?;
                next.received(buffer, n)?
            }
            UploadAction::ClearStatus(c, next) => {
                c.execute(io)?;
                next.sent(buffer)
            }
            UploadAction::SetAddress(c, next) => {
                c.execute(io)?;
                next.sent(buffer)
            }
            UploadAction::Sleep(poll_timeout, next) => {
                io.sleeps.borrow_mut().push(poll_timeout);
                next.slept(buffer)
            }
            UploadAction::Store(data, next) => {
                output.extend_from_slice(data);
                next.stored()
            }
            UploadAction::Progress(n, next) => {
                if let Some(progress) = progress.as_mut() {
                    progress(n);
                }
                next.reported(buffer)?
            }
            UploadAction::Done => return Ok(()),
        };
    }
}

fn upload(
    dfu: &mut DfuSync<MockIO, Progress>,
    output: &mut Vec<u8>,
    length: u32,
) -> Result<(), Error> {
    let start = dfu.upload(length)?;
    drive(dfu, start, output)
}

fn upload_all(dfu: &mut DfuSync<MockIO, Progress>, output: &mut Vec<u8>) -> Result<(), Error> {
    let start = dfu.upload_all()?;
    drive(dfu, start, output)
}

fn make_firmware(size: u32) -> Vec<u8> {
    (0..size).map(|i| i as u8).collect()
}

fn test_simple_upload(mock: MockIO) -> MockIO {
    let size = mock.size();
    let address = mock.address;
    let firmware = make_firmware(size);

    let mut dfu = dfu_sync(mock);

    if let Some(address) = address {
        dfu.override_address(address);
    }

    let mut output = Vec::new();
    upload_all(&mut dfu, &mut output).unwrap();

    assert_eq!(firmware, output.as_slice());
    dfu.into_inner()
}

#[test]
fn upload_standard_dfu() {
    let size = 128u32;
    let firmware = make_firmware(size);
    let mut mock = MockIO::new();
    mock.can_upload = true;
    mock.upload_data = firmware;
    let mock = test_simple_upload(mock);
    // 21 whole blocks and the short one that ends the upload; no address is ever set.
    assert_eq!(*mock.blocks.borrow(), (0..22).collect::<Vec<u16>>());
    assert!(mock.writes.borrow().is_empty());
    assert!(mock.sleeps.borrow().is_empty());
}

#[test]
fn upload_dfuse() {
    let mut mock = MockIO::new();
    mock.can_upload = true;
    mock.dfuse = true;
    let size = mock.size();
    mock.upload_data = make_firmware(size);
    let mock = test_simple_upload(mock);
    assert_eq!(*mock.blocks.borrow(), (2..42).collect::<Vec<u16>>());
    assert_eq!(
        *mock.writes.borrow(),
        vec![(0b00100001, 1, 0, vec![0x21, 0x00, 0x00, 0x00, 0x08])]
    );
    // The first status is asked for at once, those after it as late as the device wishes.
    assert_eq!(*mock.sleeps.borrow(), vec![0, 7, 7]);
}

#[test]
fn upload_dfuse_override_address() {
    let mut mock = MockIO::new();
    mock.can_upload = true;
    mock.dfuse = true;
    let size = mock.size();
    mock.address = Some(0x08004000);
    mock.upload_data = make_firmware(size);
    let mock = test_simple_upload(mock);
    assert_eq!(
        *mock.writes.borrow(),
        vec![(0b00100001, 1, 0, vec![0x21, 0x00, 0x40, 0x00, 0x08])]
    );
}

#[test]
fn upload_explicit_length() {
    let size = 12u32; // exactly 2 full blocks (transfer_size=6)
    let firmware = make_firmware(size);
    let mut mock = MockIO::new();
    mock.can_upload = true;
    mock.upload_data = firmware.clone();

    let mut dfu = dfu_sync(mock);
    let mut output = Vec::new();
    upload(&mut dfu, &mut output, size).unwrap();

    assert_eq!(firmware, output);
    assert_eq!(*dfu.into_inner().blocks.borrow(), vec![0, 1]);
}

#[test]
fn upload_not_capable_returns_error() {
    let mock = MockIO::new(); // can_upload = false
    let mut dfu = dfu_sync(mock);
    let mut output = Vec::new();
    assert!(upload_all(&mut dfu, &mut output).is_err());
    assert_eq!(dfu.upload(12).err(), Some(Error::OutOfCapabilities));
    assert!(output.is_empty());
}

#[test]
fn upload_stops_at_the_length() {
    let mut mock = MockIO::new();
    mock.can_upload = true;
    mock.upload_data = make_firmware(128);
    let mut dfu = dfu_sync(mock);
    let mut output = Vec::new();
    upload(&mut dfu, &mut output, 8).unwrap();
    assert_eq!(output, make_firmware(8));
}

#[test]
fn upload_of_whole_blocks_ends_with_an_empty_one() {
    let mut mock = MockIO::new();
    mock.can_upload = true;
    mock.upload_data = make_firmware(12);
    let mock = test_simple_upload(mock);
    assert_eq!(*mock.blocks.borrow(), vec![0, 1, 2]);
}

#[test]
fn upload_of_nothing_reads_nothing() {
    let mut mock = MockIO::new();
    mock.can_upload = true;
    mock.dfuse = true;
    mock.upload_data = make_firmware(12);
    let mut dfu = dfu_sync(mock);
    let mut output = Vec::new();
    upload(&mut dfu, &mut output, 0).unwrap();
    assert!(output.is_empty());
    let mock = dfu.into_inner();
    assert!(mock.blocks.borrow().is_empty());
    assert!(mock.writes.borrow().is_empty());
}

#[test]
fn upload_clears_the_status_of_a_device_in_error() {
    let mut mock = MockIO::new();
    mock.can_upload = true;
    mock.upload_data = make_firmware(20);
    mock.state.set(10);
    let mock = test_simple_upload(mock);
    assert_eq!(*mock.writes.borrow(), vec![(0b00100001, 4, 0, vec![])]);
}

#[test]
fn upload_from_a_device_that_is_not_idle_fails() {
    let mut mock = MockIO::new();
    mock.can_upload = true;
    mock.upload_data = make_firmware(20);
    mock.state.set(9);
    let mut dfu = dfu_sync(mock);
    let mut output = Vec::new();
    assert_eq!(
        upload_all(&mut dfu, &mut output),
        Err(Error::InvalidState {
            got: State::DfuUploadIdle,
            expected: State::DfuIdle,
        })
    );
    assert!(output.is_empty());
    assert!(dfu.into_inner().blocks.borrow().is_empty());
}

#[test]
fn upload_reports_progress() {
    let mut mock = MockIO::new();
    mock.can_upload = true;
    mock.upload_data = make_firmware(15);
    let mut dfu = dfu_sync(mock);
    let seen = Rc::new(RefCell::new(Vec::new()));
    let sink = seen.clone();
    dfu.with_progress(Box::new(move |n| sink.borrow_mut().push(n)));
    let mut output = Vec::new();
    upload_all(&mut dfu, &mut output).unwrap();
    assert_eq!(*seen.borrow(), vec![6, 6, 3]);
}

#[test]
fn upload_asks_for_the_protocol_each_time() {
    let mut mock = MockIO::new();
    mock.can_upload = true;
    mock.upload_data = make_firmware(40);
    let mut mock = mock.build();
    // The length comes from the memory layout, and then the upload goes over standard DFU.
    mock.protocols[0] = DfuProtocol::Dfuse {
        address: ADDRESS,
        memory_layout: vec![5, 10],
    };
    let mut dfu: DfuSync<MockIO, Progress> = DfuSync::new(mock);
    let mut output = Vec::new();
    upload_all(&mut dfu, &mut output).unwrap();
    assert_eq!(output, make_firmware(15));
    let mock = dfu.into_inner();
    assert_eq!(mock.protocol_asked.get(), 2);
    assert_eq!(*mock.blocks.borrow(), vec![0, 1, 2]);
    assert!(mock.writes.borrow().is_empty());
}

#[test]
fn upload_of_an_uncountable_memory_does_not_begin() {
    let mut mock = MockIO::new();
    mock.can_upload = true;
    mock.dfuse = true;
    mock.memory_layout = vec![u32::MAX, 1];
    let dfu = dfu_sync(mock);
    assert!(dfu.try_upload_all().is_none());
    assert_eq!(dfu.io().protocol_asked.get(), 1);

    let mut mock = MockIO::new();
    mock.can_upload = true;
    mock.dfuse = true;
    mock.memory_layout = vec![u32::MAX - 7, 7];
    let dfu = dfu_sync(mock);
    let start = dfu.try_upload_all().unwrap().unwrap();
    let start = start.command.chained_command.chained_command;
    assert_eq!(start.chained_command.remaining, u32::MAX);

    let dfu = dfu_sync(MockIO::new());
    assert_eq!(
        dfu.try_upload_all().unwrap().err(),
        Some(Error::OutOfCapabilities)
    );
}

#[test]
fn upload_gathers_whatever_the_device_sends() {
    // The second block is one byte longer than what was left to read.
    let mut mock = MockIO::new();
    mock.can_upload = true;
    let mut dfu = dfu_sync(mock);
    let start = dfu.upload(8).unwrap();
    let (_, buffer, _) = dfu.parts();
    let answers: [&[u8]; 4] = [
        &[0, 0, 0, 0, 2, 0],
        &[0, 0, 0, 0, 2, 0],
        &[9, 9, 8, 8, 7, 7],
        &[1, 2, 3],
    ];
    let mut time = 0;
    let mut stored = Vec::new();
    let mut reports = Vec::new();
    let mut action = start.begin(buffer);
    loop {
        action = match action {
            UploadAction::Read(_, next) => {
                let bytes = answers[time];
                time += 1;
                buffer[..bytes.len()].copy_from_slice(bytes);
                next.received(buffer, bytes.len()).unwrap()
            }
            UploadAction::Store(data, next) => {
                stored.extend_from_slice(data);
                next.stored()
            }
            UploadAction::Progress(n, next) => {
                reports.push(n);
                next.reported(buffer).unwrap()
            }
            UploadAction::Done => break,
            _ => panic!("nothing is sent to this device"),
        };
    }
    assert_eq!(time, 4);
    assert_eq!(stored, [9, 9, 8, 8, 7, 7, 1, 2, 3]);
    assert_eq!(reports, [6, 3]);
}
