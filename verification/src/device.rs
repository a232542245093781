//! What an upload from a device that keeps to the protocol comes to.

use crate::control::{ReadRequest, UsbWriteControl};
use crate::error::Error;
use crate::get_status;
use crate::get_status::{GetStatusRecv, WaitState};
use crate::sans_io::{DfuProtocol, DfuSansIo};
use crate::state::State;
use crate::synchronous::DfuSyncView;
use crate::upload;
use crate::upload::UploadLoop;
use crate::upload_session;
use crate::upload_session::{
    UploadReply, UploadSent, UploadSlept, UploadStart, UploadStored, UploadView,
};
use crate::wire;
use vstd::prelude::*;

verus! {

/// A device that hands its memory out as the protocol asks, and goes into its error state on any
/// request that it does not know.
pub struct Device {
    /// What the device holds.
    pub memory: Seq<u8>,
    /// Address of the first byte of `memory`.
    pub base: int,
    /// The device finds a block by its number, counted from the address that it was told. One
    /// that does not goes on where it stopped.
    pub addressed: bool,
    /// Bytes in a block.
    pub block_size: nat,
    /// The address that the device was told.
    pub pointer: int,
    /// Bytes handed out so far.
    pub served: nat,
    pub state: State,
    /// Number of status requests that the device still answers with busy.
    pub busy: nat,
    /// Number of status requests that the device answers with busy once it has been told an
    /// address.
    pub latency: nat,
    /// Poll timeout in a status, by the number of status requests that are still to be answered
    /// with busy.
    pub poll_timeout: spec_fn(nat) -> (u8, u8, u8),
}

impl Device {
    /// The state that the device reports when it is asked.
    pub open spec fn reported(self) -> State {
        if self.state == State::DfuDnbusy && self.busy == 0 {
            State::DfuDnloadIdle
        } else {
            self.state
        }
    }

    /// The device after a status request.
    pub open spec fn asked(self) -> Device {
        Device {
            state: self.reported(),
            busy: if self.busy > 0 {
                (self.busy - 1) as nat
            } else {
                0
            },
            ..self
        }
    }

    /// Its status.
    pub open spec fn status(self) -> Seq<u8> {
        let (low, middle, high) = (self.poll_timeout)(self.busy);
        seq![0u8, low, middle, high, self.reported().code(), 0u8]
    }

    /// Place in memory of the block `number`.
    pub open spec fn position(self, number: u16) -> int {
        if self.addressed {
            self.pointer - self.base + (number - 2) * self.block_size
        } else {
            self.served as int
        }
    }

    /// The firmware from the block `number` on.
    pub open spec fn rest(self, number: u16) -> Seq<u8> {
        self.memory.skip(self.position(number))
    }

    /// The host asks for the status.
    pub open spec fn is_status_request(request: ReadRequest) -> bool {
        &&& request.request_type == 0xa1
        &&& request.request == 3
        &&& request.value == 0
    }

    /// The host asks for firmware, in a state in which the device gives it.
    pub open spec fn gives_firmware(self, request: ReadRequest) -> bool {
        &&& request.request_type == 0x21
        &&& request.request == 2
        &&& self.can_send()
    }

    /// The device is in a state in which it gives firmware.
    pub open spec fn can_send(self) -> bool {
        ||| self.state == State::DfuIdle
        ||| self.state == State::DfuDnloadIdle
        ||| self.state == State::DfuUploadIdle
    }

    /// The device after a request that it does not know.
    pub open spec fn failed(self) -> Device {
        Device { state: State::DfuError, ..self }
    }

    /// The answer to a control transfer from the device.
    pub open spec fn answer(self, request: ReadRequest) -> Seq<u8> {
        if Device::is_status_request(request) {
            self.status().take(wire::least(request.length, 6) as int)
        } else if self.gives_firmware(request) {
            let rest = self.rest(request.value);
            rest.take(wire::least(request.length, rest.len()) as int)
        } else {
            Seq::empty()
        }
    }

    /// The device after it has answered. Firmware that ends short of what was asked for leaves it
    /// idle.
    pub open spec fn answered(self, request: ReadRequest) -> Device {
        if Device::is_status_request(request) {
            self.asked()
        } else if self.gives_firmware(request) {
            let n = self.answer(request).len();
            Device {
                served: self.served + n,
                state: if n < request.length {
                    State::DfuIdle
                } else {
                    State::DfuUploadIdle
                },
                ..self
            }
        } else {
            self.failed()
        }
    }

    /// The device after a control transfer to it, which clears its status if it asks for that.
    pub open spec fn cleared(self, control: UsbWriteControl<[u8; 0]>) -> Device {
        if control.request_type == 0x21 && control.request == 4 && control.value == 0 && self.state
            == State::DfuError {
            Device { state: State::DfuIdle, ..self }
        } else {
            self.failed()
        }
    }

    /// The device once it has done with the address that it was told.
    pub open spec fn settled(self) -> Device {
        Device { state: State::DfuDnloadIdle, busy: 0, ..self }
    }

    /// `ready` is this device in its idle state.
    pub open spec fn readied(self, ready: Device) -> bool {
        &&& ready.state == State::DfuIdle
        &&& ready == Device { state: ready.state, busy: ready.busy, ..self }
    }

    /// The device after a control transfer to it, which tells it an address if it is the command
    /// for that.
    pub open spec fn told(self, control: UsbWriteControl<[u8; 5]>) -> Device {
        if control.request_type == 0x21 && control.request == 1 && control.value == 0
            && control.data@[0] == 0x21 && self.state == State::DfuIdle {
            Device {
                pointer: told_address(control.data),
                state: State::DfuDnbusy,
                busy: self.latency,
                ..self
            }
        } else {
            self.failed()
        }
    }
}

/// The address in the payload of the command that sets it.
pub open spec fn told_address(payload: [u8; 5]) -> int {
    payload@[1] + 0x100 * payload@[2] + 0x1_0000 * payload@[3] + 0x100_0000 * payload@[4]
}

/// The payload of the command that sets the address starts with the command's code, and the
/// device reads the address in it that the host has written.
pub proof fn law_address_is_told(address: u32)
    ensures
        upload::set_address_payload(address)@[0] == 0x21,
        told_address(upload::set_address_payload(address)) == address,
{
}

/// What an upload from `device` comes to in at most `steps` steps, when `stored` has been stored
/// already: everything that is stored, or the error that ends it; nothing if it is not over.
pub open spec fn run(
    device: Device,
    action: UploadView,
    stored: Seq<u8>,
    room: nat,
    steps: nat,
) -> Option<Result<Seq<u8>, Error>>
    decreases steps,
{
    if action is Done {
        Some(Ok(stored))
    } else if steps == 0 {
        None
    } else {
        let left = (steps - 1) as nat;
        match action {
            UploadView::Read(request, next) => match next.answered(device.answer(request), room) {
                Err(e) => Some(Err(e)),
                Ok(after) => run(device.answered(request), after, stored, room, left),
            },
            UploadView::ClearStatus(control, next) => run(
                device.cleared(control),
                next.taken(room),
                stored,
                room,
                left,
            ),
            UploadView::SetAddress(control, next) => run(
                device.told(control),
                next.taken(room),
                stored,
                room,
                left,
            ),
            UploadView::Sleep(_, next) => run(device, next.awake(room), stored, room, left),
            UploadView::Store(data, next) => run(device, next.written(), stored + data, room, left),
            UploadView::Progress(_, next) => match next.counted(room) {
                Err(e) => Some(Err(e)),
                Ok(after) => run(device, after, stored, room, left),
            },
            UploadView::Done => Some(Ok(stored)),
        }
    }
}

/// An upload from `device` ends with `result`.
pub open spec fn ends(
    device: Device,
    action: UploadView,
    stored: Seq<u8>,
    room: nat,
    result: Result<Seq<u8>, Error>,
) -> bool {
    exists|steps: nat| #[trigger] run(device, action, stored, room, steps) == Some(result)
}

proof fn lemma_status_decodes(device: Device)
    ensures
        get_status::decoded(device.status()) matches Ok(message) && message.state
            == device.reported(),
{
}

/// The blocks from the next one on are at hand in `device`, under numbers that do not wrap around.
spec fn serves(device: Device, upload_loop: UploadLoop, room: nat) -> bool {
    let number = upload_loop.block_num;
    let size = device.block_size;
    let left = device.memory.len() - device.position(number);
    &&& room == size
    &&& size == upload_loop.descriptor.transfer_size
    &&& size > 0
    &&& device.can_send()
    &&& 0 <= device.position(number) <= device.memory.len()
    &&& device.addressed ==> {
        ||| upload_loop.remaining <= (0x1_0000 - number) * size
        ||| left < (0x1_0000 - number) * size
    }
}

/// A whole block that is not the last one leaves the device ready for the block after it.
proof fn lemma_next_block(device: Device, upload_loop: UploadLoop, room: nat)
    requires
        serves(device, upload_loop, room),
        !upload_loop.eof,
        !upload_loop.needs_address(),
        upload_loop.remaining > device.block_size,
        device.rest(upload_loop.block_num).len() >= device.block_size,
    ensures
        ({
            let size = device.block_size;
            let rest = device.rest(upload_loop.block_num);
            let chunk = upload_loop.due()->UploadChunk_0;
            let request = chunk.request(room);
            let device2 = device.answered(request);
            let after = chunk.receiver().after(size)->Ok_0;
            &&& device.answer(request) == rest.take(size as int)
            &&& serves(device2, after, room)
            &&& device2.rest(after.block_num) == rest.skip(size as int)
            &&& !after.eof
            &&& !after.needs_address()
            &&& after.remaining == upload_loop.remaining - size
        }),
{
    let number = upload_loop.block_num;
    let size = device.block_size;
    let rest = device.rest(number);
    let chunk = upload_loop.due()->UploadChunk_0;
    let request = chunk.request(room);
    let device2 = device.answered(request);
    let after = chunk.receiver().after(size)->Ok_0;
    assert(request.length == size);
    assert(device.answer(request).len() == size);
    if device.addressed {
        assert((0x1_0000 - number) * size == (0x1_0000 - (number + 1)) * size + size)
            by (nonlinear_arith);
        assert((number + 1 - 2) * size == (number - 2) * size + size) by (nonlinear_arith);
        if number == 0xffff {
            assert((0x1_0000 - (number + 1)) * size == 0) by (nonlinear_arith)
                requires
                    number == 0xffff,
            ;
        }
        assert(after.block_num == number + 1);
    }
    assert(device2.position(after.block_num) == device.position(number) + size);
    assert(device2.rest(after.block_num) =~= rest.skip(size as int));
}

proof fn lemma_chunks(device: Device, upload_loop: UploadLoop, stored: Seq<u8>, room: nat)
    requires
        serves(device, upload_loop, room),
        !upload_loop.eof,
        !upload_loop.needs_address(),
    ensures
        ({
            let rest = device.rest(upload_loop.block_num);
            let n = wire::least(upload_loop.remaining as nat, rest.len()) as int;
            ends(
                device,
                upload_session::after_loop(upload_loop, room),
                stored,
                room,
                Ok(stored + rest.take(n)),
            )
        }),
    decreases upload_loop.remaining,
{
    let size = device.block_size;
    let rest = device.rest(upload_loop.block_num);
    let total = wire::least(upload_loop.remaining as nat, rest.len()) as int;
    let action = upload_session::after_loop(upload_loop, room);
    let result = stored + rest.take(total);
    if upload_loop.remaining == 0 {
        assert(result =~= stored);
        assert(run(device, action, stored, room, 0) == Some(Ok::<_, Error>(result)));
    } else {
        let chunk = upload_loop.due()->UploadChunk_0;
        let request = chunk.request(room);
        let data = device.answer(request);
        let device2 = device.answered(request);
        let after = chunk.receiver().after(data.len())->Ok_0;
        let action2 = upload_session::after_loop(after, room);
        let left: nat = if data.len() < size || upload_loop.remaining == size {
            assert(data == rest.take(total));
            assert(action2 is Done);
            assert(run(device2, action2, stored + data, room, 0) == Some(
                Ok::<_, Error>(result),
            ));
            0
        } else {
            lemma_next_block(device, upload_loop, room);
            let rest2 = device2.rest(after.block_num);
            lemma_chunks(device2, after, stored + data, room);
            let total2 = wire::least(after.remaining as nat, rest2.len()) as int;
            assert(stored + data + rest2.take(total2) =~= result);
            choose|left: nat| #[trigger]
                run(device2, action2, stored + data, room, left) == Some(Ok::<_, Error>(result))
        };
        lemma_chunk_steps(device, chunk, stored, room, left);
        assert(run(device, action, stored, room, left + 3) == Some(Ok::<_, Error>(result)));
    }
}

/// A chunk takes three steps: it is read, it is stored, and its size is reported.
proof fn lemma_chunk_steps(
    device: Device,
    chunk: upload::UploadChunk,
    stored: Seq<u8>,
    room: nat,
    left: nat,
)
    ensures
        ({
            let request = chunk.request(room);
            let data = device.answer(request);
            let action = UploadView::Read(request, UploadReply::Chunk(chunk.receiver()));
            let after = chunk.receiver().after(data.len())->Ok_0;
            run(device, action, stored, room, left + 3) == run(
                device.answered(request),
                upload_session::after_loop(after, room),
                stored + data,
                room,
                left,
            )
        }),
{
    let request = chunk.request(room);
    let data = device.answer(request);
    let store = UploadStored { recv: chunk.receiver(), n: data.len() as usize };
    let action = UploadView::Read(request, UploadReply::Chunk(chunk.receiver()));
    let middle = UploadView::Store(data, store);
    assert(chunk.length(room) <= chunk.descriptor.transfer_size);
    assert(data.len() <= 0xffff);
    assert(UploadReply::Chunk(chunk.receiver()).answered(data, room) == Ok::<_, Error>(middle));
    assert(run(device, action, stored, room, left + 3) == run(
        device.answered(request),
        middle,
        stored,
        room,
        left + 2,
    ));
    assert(run(device.answered(request), middle, stored, room, left + 2) == run(
        device.answered(request),
        store.written(),
        stored + data,
        room,
        left + 1,
    ));
}

proof fn lemma_ends_read(
    device: Device,
    request: ReadRequest,
    next: UploadReply,
    after: UploadView,
    stored: Seq<u8>,
    room: nat,
    result: Result<Seq<u8>, Error>,
)
    requires
        next.answered(device.answer(request), room) == Ok::<_, Error>(after),
        ends(device.answered(request), after, stored, room, result),
    ensures
        ends(device, UploadView::Read(request, next), stored, room, result),
{
    let left = choose|left: nat| #[trigger]
        run(device.answered(request), after, stored, room, left) == Some(result);
    assert(run(device, UploadView::Read(request, next), stored, room, left + 1) == Some(result));
}

proof fn lemma_ends_clear(
    device: Device,
    control: UsbWriteControl<[u8; 0]>,
    next: UploadSent,
    stored: Seq<u8>,
    room: nat,
    result: Result<Seq<u8>, Error>,
)
    requires
        ends(device.cleared(control), next.taken(room), stored, room, result),
    ensures
        ends(device, UploadView::ClearStatus(control, next), stored, room, result),
{
    let left = choose|left: nat| #[trigger]
        run(device.cleared(control), next.taken(room), stored, room, left) == Some(result);
    assert(run(device, UploadView::ClearStatus(control, next), stored, room, left + 1) == Some(
        result,
    ));
}

proof fn lemma_ends_set_address(
    device: Device,
    control: UsbWriteControl<[u8; 5]>,
    next: UploadSent,
    stored: Seq<u8>,
    room: nat,
    result: Result<Seq<u8>, Error>,
)
    requires
        ends(device.told(control), next.taken(room), stored, room, result),
    ensures
        ends(device, UploadView::SetAddress(control, next), stored, room, result),
{
    let left = choose|left: nat| #[trigger]
        run(device.told(control), next.taken(room), stored, room, left) == Some(result);
    assert(run(device, UploadView::SetAddress(control, next), stored, room, left + 1) == Some(
        result,
    ));
}

proof fn lemma_ends_sleep(
    device: Device,
    poll_timeout: u64,
    next: UploadSlept,
    stored: Seq<u8>,
    room: nat,
    result: Result<Seq<u8>, Error>,
)
    requires
        ends(device, next.awake(room), stored, room, result),
    ensures
        ends(device, UploadView::Sleep(poll_timeout, next), stored, room, result),
{
    let left = choose|left: nat| #[trigger]
        run(device, next.awake(room), stored, room, left) == Some(result);
    assert(run(device, UploadView::Sleep(poll_timeout, next), stored, room, left + 1) == Some(
        result,
    ));
}

/// However often a device says that it is busy, the upload goes on when it is not any more.
proof fn lemma_poll(
    device: Device,
    wait: WaitState<UploadLoop>,
    stored: Seq<u8>,
    room: nat,
    result: Result<Seq<u8>, Error>,
)
    requires
        device.state == State::DfuDnbusy,
        wait.intermediate == State::DfuDnbusy,
        wait.state == State::DfuDnloadIdle,
        !wait.end,
        room >= 6,
        ends(
            device.settled(),
            upload_session::after_loop(wait.chained_command, room),
            stored,
            room,
            result,
        ),
    ensures
        ends(device, upload_session::after_wait(wait.due(), room), stored, room, result),
    decreases device.busy,
{
    let command = get_status::GetStatus { chained_command: wait };
    let slept = UploadSlept { command };
    let request = get_status::status_request(room);
    let recv = GetStatusRecv { chained_command: wait };
    let device2 = device.answered(request);
    assert(device.answer(request) =~= device.status());
    lemma_status_decodes(device);
    let message = get_status::decoded(device.status())->Ok_0;
    if device.busy == 0 {
        let over = WaitState { end: true, ..wait };
        let after = upload_session::after_loop(wait.chained_command, room);
        assert(over.due() == get_status::Step::Break(wait.chained_command));
        lemma_ends_read(device, request, UploadReply::Poll(recv), after, stored, room, result);
    } else {
        let again = WaitState { poll_timeout: message.poll_timeout, ..wait };
        let after = upload_session::after_wait(again.due(), room);
        lemma_poll(device2, again, stored, room, result);
        lemma_ends_read(device, request, UploadReply::Poll(recv), after, stored, room, result);
    }
    lemma_ends_sleep(device, wait.poll_timeout, slept, stored, room, result);
}

/// The beginning of every upload from a device that is idle or in error: its status is cleared
/// if need be, then the loop starts.
proof fn lemma_beginning(
    dfu: DfuSansIo,
    protocol: DfuProtocol,
    length: u32,
    device: Device,
    room: nat,
    result: Result<Seq<u8>, Error>,
)
    requires
        dfu.descriptor.can_upload,
        device.state == State::DfuIdle || device.state == State::DfuError,
        room == dfu.descriptor.transfer_size,
        room >= 6,
        forall|ready: Device|
            device.readied(ready) ==> #[trigger] ends(
                ready,
                upload_session::after_loop(first_loop(dfu, protocol, length), room),
                Seq::empty(),
                room,
                result,
            ),
    ensures
        ends(
            device,
            beginning(dfu, protocol, length),
            Seq::empty(),
            room,
            result,
        ),
{
    let chain = dfu.upload_chain(protocol, length)->Ok_0;
    let request = get_status::status_request(room);
    let recv = GetStatusRecv { chained_command: chain.chained_command };
    let ready = chain.chained_command.chained_command;
    let recv2 = GetStatusRecv { chained_command: ready.chained_command };
    let device2 = device.answered(request);
    let device3 = if device.state == State::DfuError {
        device2.cleared(get_status::clear_request())
    } else {
        device2
    };
    let device4 = device3.answered(request);
    let second = UploadView::Read(request, UploadReply::Ready(recv2));
    assert(device.answer(request) =~= device.status());
    assert(device3.answer(request) =~= device3.status());
    lemma_status_decodes(device);
    lemma_status_decodes(device3);
    assert(device.readied(device4));
    let after = upload_session::after_loop(first_loop(dfu, protocol, length), room);
    assert(ends(device4, after, Seq::empty(), room, result));
    lemma_ends_read(
        device3,
        request,
        UploadReply::Ready(recv2),
        after,
        Seq::empty(),
        room,
        result,
    );
    if device.state == State::DfuError {
        let sent = UploadSent::Cleared(ready);
        lemma_ends_clear(
            device2,
            get_status::clear_request(),
            sent,
            Seq::empty(),
            room,
            result,
        );
        lemma_ends_read(
            device,
            request,
            UploadReply::Status(recv),
            UploadView::ClearStatus(get_status::clear_request(), sent),
            Seq::empty(),
            room,
            result,
        );
    } else {
        lemma_ends_read(
            device,
            request,
            UploadReply::Status(recv),
            second,
            Seq::empty(),
            room,
            result,
        );
    }
}

/// The first thing that an upload of `length` bytes does, with room for one whole transfer.
pub open spec fn beginning(dfu: DfuSansIo, protocol: DfuProtocol, length: u32) -> UploadView {
    let start = UploadStart { command: dfu.upload_chain(protocol, length)->Ok_0 };
    start.begun(dfu.descriptor.transfer_size as nat)
}

/// The loop that an upload starts with.
pub open spec fn first_loop(dfu: DfuSansIo, protocol: DfuProtocol, length: u32) -> UploadLoop {
    let data = dfu.upload_protocol(protocol);
    UploadLoop {
        descriptor: dfu.descriptor,
        protocol: data,
        remaining: length,
        block_num: data.first_block(),
        eof: false,
    }
}

/// An upload over standard DFU stores the firmware from its beginning on: as much as was asked
/// for, or all of it if there is less.
pub proof fn law_dfu_upload(dfu: DfuSansIo, length: u32, device: Device)
    requires
        dfu.descriptor.can_upload,
        dfu.descriptor.transfer_size >= 6,
        device.state == State::DfuIdle || device.state == State::DfuError,
        !device.addressed,
        device.block_size == dfu.descriptor.transfer_size,
        device.served == 0,
    ensures
        ends(
            device,
            beginning(dfu, DfuProtocol::Dfu, length),
            Seq::empty(),
            dfu.descriptor.transfer_size as nat,
            Ok(device.memory.take(wire::least(length as nat, device.memory.len()) as int)),
        ),
{
    let room = dfu.descriptor.transfer_size as nat;
    let upload_loop = first_loop(dfu, DfuProtocol::Dfu, length);
    let expected = device.memory.take(wire::least(length as nat, device.memory.len()) as int);
    assert forall|ready: Device|
        device.readied(ready) implies #[trigger] ends(
        ready,
        upload_session::after_loop(upload_loop, room),
        Seq::empty(),
        room,
        Ok(expected),
    ) by {
        assert(ready.rest(0) =~= device.memory);
        lemma_chunks(ready, upload_loop, Seq::empty(), room);
        assert(Seq::<u8>::empty() + expected =~= expected);
    }
    lemma_beginning(dfu, DfuProtocol::Dfu, length, device, room, Ok(expected));
}

/// The address that an upload over DfuSe starts at: the one that the protocol gives, as long as it
/// was not overridden.
pub open spec fn upload_address(dfu: DfuSansIo, protocol: DfuProtocol) -> int {
    wire::begins_at(dfu.override_address, protocol)->0 as int
}

/// An upload over DfuSe stores what the device holds from the address on: as much as was asked
/// for, or all up to the end of the memory if there is less. The block numbers that the device
/// finds its blocks by wrap around after 65534 blocks, so that no more than these can be read.
pub proof fn law_dfuse_upload(dfu: DfuSansIo, protocol: DfuProtocol, length: u32, device: Device)
    requires
        dfu.descriptor.can_upload,
        dfu.descriptor.transfer_size >= 6,
        protocol is Dfuse,
        device.state == State::DfuIdle || device.state == State::DfuError,
        device.addressed,
        device.block_size == dfu.descriptor.transfer_size,
        0 <= upload_address(dfu, protocol) - device.base <= device.memory.len(),
        length <= 65534 * device.block_size || device.memory.len() - (upload_address(dfu, protocol)
            - device.base) < 65534 * device.block_size,
    ensures
        ({
            let there = device.memory.skip(upload_address(dfu, protocol) - device.base);
            ends(
                device,
                beginning(dfu, protocol, length),
                Seq::empty(),
                dfu.descriptor.transfer_size as nat,
                Ok(there.take(wire::least(length as nat, there.len()) as int)),
            )
        }),
{
    let room = dfu.descriptor.transfer_size as nat;
    let upload_loop = first_loop(dfu, protocol, length);
    let there = device.memory.skip(upload_address(dfu, protocol) - device.base);
    let expected = there.take(wire::least(length as nat, there.len()) as int);
    assert forall|ready: Device|
        device.readied(ready) implies #[trigger] ends(
        ready,
        upload_session::after_loop(upload_loop, room),
        Seq::empty(),
        room,
        Ok(expected),
    ) by {
        if length == 0 {
            assert(expected =~= Seq::empty());
            assert(run(
                ready,
                upload_session::after_loop(upload_loop, room),
                Seq::empty(),
                room,
                0,
            ) == Some(Ok::<_, Error>(expected)));
        } else {
            let cmd = upload_loop.due()->SetAddress_0;
            let control = cmd.request();
            law_address_is_told(cmd.protocol.address);
            let told = ready.told(control);
            let idle = told.settled();
            let wait = WaitState::fresh(
                State::DfuDnbusy,
                State::DfuDnloadIdle,
                cmd.addressed(),
            );
            assert(idle.position(2) == idle.pointer - idle.base) by (nonlinear_arith)
                requires
                    idle.position(2) == idle.pointer - idle.base + (2 - 2) * idle.block_size,
            ;
            assert(idle.rest(2) =~= there);
            lemma_chunks(idle, cmd.addressed(), Seq::empty(), room);
            assert(Seq::<u8>::empty() + expected =~= expected);
            lemma_poll(told, wait, Seq::empty(), room, Ok(expected));
            lemma_ends_set_address(
                ready,
                control,
                UploadSent::Addressed(wait),
                Seq::empty(),
                room,
                Ok(expected),
            );
        }
    }
    lemma_beginning(dfu, protocol, length, device, room, Ok(expected));
}

/// The upload of the entire firmware stores the entire firmware, over standard DFU: as many bytes
/// as the device has, if these can be counted.
pub proof fn law_dfu_upload_all<IO, P>(
    dfu: DfuSyncView<IO, P>,
    protocol: DfuProtocol,
    device: Device,
)
    requires
        dfu.has_room(),
        protocol is Dfu,
        dfu.dfu.descriptor.can_upload,
        dfu.dfu.descriptor.transfer_size >= 6,
        device.state == State::DfuIdle || device.state == State::DfuError,
        !device.addressed,
        device.block_size == dfu.dfu.descriptor.transfer_size,
        device.served == 0,
        device.memory.len() <= u32::MAX,
    ensures
        ({
            let room = dfu.buffer.len();
            let start = dfu.upload(protocol, protocol.entire() as u32);
            &&& start is Ok
            &&& ends(device, start->Ok_0.begun(room), Seq::empty(), room, Ok(device.memory))
        }),
{
    law_dfu_upload(dfu.dfu, u32::MAX, device);
    assert(device.memory.take(device.memory.len() as int) =~= device.memory);
}

/// The upload of the entire firmware stores the entire firmware, over DfuSe: the whole memory, if
/// its layout tells its size and the upload starts at its beginning. As the block numbers wrap
/// around, the memory has no more than 65534 blocks.
pub proof fn law_dfuse_upload_all<IO, P>(
    dfu: DfuSyncView<IO, P>,
    protocol: DfuProtocol,
    device: Device,
)
    requires
        dfu.has_room(),
        protocol is Dfuse,
        dfu.dfu.descriptor.can_upload,
        dfu.dfu.descriptor.transfer_size >= 6,
        device.state == State::DfuIdle || device.state == State::DfuError,
        device.addressed,
        device.block_size == dfu.dfu.descriptor.transfer_size,
        device.base == upload_address(dfu.dfu, protocol),
        device.memory.len() == protocol.entire(),
        device.memory.len() <= u32::MAX,
        device.memory.len() <= 65534 * device.block_size,
    ensures
        ({
            let room = dfu.buffer.len();
            let start = dfu.upload(protocol, protocol.entire() as u32);
            &&& start is Ok
            &&& ends(device, start->Ok_0.begun(room), Seq::empty(), room, Ok(device.memory))
        }),
{
    law_dfuse_upload(dfu.dfu, protocol, device.memory.len() as u32, device);
    assert(device.memory.skip(0) =~= device.memory);
    assert(device.memory.take(device.memory.len() as int) =~= device.memory);
}

} // verus!
