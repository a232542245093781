//! What passes between the host and the device in an upload, request by request, whatever the
//! device answers.
//!
//! Everything is said in terms of what was done and answered so far, and of the numbers of the
//! USB DFU class and its DfuSe extensions.

use crate::error::Error;
use crate::functional_descriptor::FunctionalDescriptor;
use crate::gather::{AnyDevice, Gathering};
use crate::get_status::{ClearStatus, GetStatus, WaitState};
use crate::io::DfuIo;
use crate::sans_io::{DfuProtocol, DfuSansIo};
use crate::state::State;
use crate::synchronous::DfuSync;
use crate::upload::{ProtocolData, Start, UploadChunkRecv, UploadLoop};
use crate::upload_session;
use crate::upload_session::{UploadReply, UploadSent, UploadStart, UploadView};
use vstd::prelude::*;

verus! {

/// Something that the host does.
pub enum Act {
    /// A control transfer from the device, with room for so many bytes.
    Read { request_type: u8, request: u8, value: u16, length: nat },
    /// A control transfer to the device.
    Write { request_type: u8, request: u8, value: u16, data: Seq<u8> },
    /// A pause of so many milliseconds.
    Sleep(int),
    /// Bytes are written to where the firmware goes.
    Store(Seq<u8>),
    /// So many bytes are reported as progress.
    Report(int),
    /// Nothing more.
    Done,
    /// Nothing more, for this reason.
    Fail(Error),
}

/// Something that the host has done.
pub struct Event {
    pub act: Act,
    /// What the device has answered, if it was asked for something.
    pub answer: Seq<u8>,
}

/// What an upload does next, as it is seen from outside.
pub open spec fn act(action: Result<UploadView, Error>) -> Act {
    match action {
        Err(e) => Act::Fail(e),
        Ok(UploadView::Read(request, _)) => Act::Read {
            request_type: request.request_type,
            request: request.request,
            value: request.value,
            length: request.length,
        },
        Ok(UploadView::ClearStatus(control, _)) => Act::Write {
            request_type: control.request_type,
            request: control.request,
            value: control.value,
            data: control.data@,
        },
        Ok(UploadView::SetAddress(control, _)) => Act::Write {
            request_type: control.request_type,
            request: control.request,
            value: control.value,
            data: control.data@,
        },
        Ok(UploadView::Sleep(poll_timeout, _)) => Act::Sleep(poll_timeout as int),
        Ok(UploadView::Store(data, _)) => Act::Store(data),
        Ok(UploadView::Progress(n, _)) => Act::Report(n as int),
        Ok(UploadView::Done) => Act::Done,
    }
}

/// The status is asked for, by a host that has `room` bytes.
pub open spec fn asks_status(room: nat) -> Act {
    Act::Read {
        request_type: 0xa1,
        request: 3,
        value: 0,
        length: if room < 6 {
            room
        } else {
            6
        },
    }
}

/// The host has asked for firmware.
pub open spec fn asked_firmware(event: Event) -> bool {
    event.act matches Act::Read { request, .. } && request == 2
}

/// The host has told the device an address.
pub open spec fn told_address(event: Event) -> bool {
    event.act matches Act::Write { request, .. } && request == 1
}

/// The number of bytes of firmware that the device has sent.
pub open spec fn received(history: Seq<Event>) -> nat
    decreases history.len(),
{
    if history.len() == 0 {
        0
    } else {
        received(history.drop_last()) + if asked_firmware(history.last()) {
            history.last().answer.len()
        } else {
            0
        }
    }
}

/// The number of times that firmware was asked for.
pub open spec fn blocks(history: Seq<Event>) -> nat
    decreases history.len(),
{
    if history.len() == 0 {
        0
    } else {
        blocks(history.drop_last()) + if asked_firmware(history.last()) {
            1nat
        } else {
            0
        }
    }
}

/// The device was told an address.
pub open spec fn told(history: Seq<Event>) -> bool
    decreases history.len(),
{
    history.len() > 0 && (told_address(history.last()) || told(history.drop_last()))
}

/// The state that a device reports with this code.
pub open spec fn state_of(code: u8) -> State
    recommends
        code <= 10,
{
    if code == 0 {
        State::AppIdle
    } else if code == 1 {
        State::AppDetach
    } else if code == 2 {
        State::DfuIdle
    } else if code == 3 {
        State::DfuDnloadSync
    } else if code == 4 {
        State::DfuDnbusy
    } else if code == 5 {
        State::DfuDnloadIdle
    } else if code == 6 {
        State::DfuManifestSync
    } else if code == 7 {
        State::DfuManifest
    } else if code == 8 {
        State::DfuManifestWaitReset
    } else if code == 9 {
        State::DfuUploadIdle
    } else {
        State::DfuError
    }
}

/// The number of milliseconds that a device wants to be left alone for, in its status.
pub open spec fn timeout(status: Seq<u8>) -> int {
    status[1] + 0x100 * status[2] + 0x1_0000 * status[3]
}

/// The four bytes of a number, the lowest first.
pub open spec fn is_bytes_of(bytes: Seq<u8>, number: u32) -> bool {
    &&& bytes.len() == 4
    &&& bytes[0] + 0x100 * bytes[1] + 0x1_0000 * bytes[2] + 0x100_0000 * bytes[3] == number
}

/// The smaller of two numbers.
pub open spec fn least(a: nat, b: nat) -> nat {
    if a <= b {
        a
    } else {
        b
    }
}

/// The address that a transfer over `protocol` begins at, if it has addresses: that of the
/// protocol, unless it was overridden.
pub open spec fn begins_at(overridden: Option<u32>, protocol: DfuProtocol) -> Option<u32> {
    match (protocol, overridden) {
        (DfuProtocol::Dfu, _) => None,
        (DfuProtocol::Dfuse { .. }, Some(address)) => Some(address),
        (DfuProtocol::Dfuse { address, .. }, None) => Some(address),
    }
}

/// An upload, as it was ordered.
pub struct Order {
    /// The number of bytes to read.
    pub length: u32,
    /// The number of bytes that the device sends at a time.
    pub transfer_size: u16,
    /// The address to begin at, if the device has addresses.
    pub address: Option<u32>,
    /// The number of bytes that the host has room for in an answer.
    pub room: nat,
}

/// The order for `length` bytes over `protocol`.
pub open spec fn ordered(
    dfu: DfuSansIo,
    protocol: DfuProtocol,
    length: u32,
    room: nat,
) -> Order {
    Order {
        length,
        transfer_size: dfu.descriptor.transfer_size,
        address: begins_at(dfu.override_address, protocol),
        room,
    }
}

impl Order {
    /// `next` is right when the device is ready to send firmware: nothing if there is no more to
    /// read, the address if the device has to be told one and was not, and else a request for the
    /// next block, which leaves out no number and asks for as much as the device sends at a time,
    /// save that the host has no room for it or that less is left to read.
    pub open spec fn reads_on(self, history: Seq<Event>, next: Act) -> bool {
        let left = self.length - received(history);
        if left <= 0 {
            next is Done
        } else if self.address is Some && !told(history) {
            &&& next matches Act::Write { request_type, request, value, data }
            &&& request_type == 0x21
            &&& request == 1
            &&& value == 0
            &&& data.len() == 5
            &&& data[0] == 0x21
            &&& is_bytes_of(data.skip(1), self.address->0)
        } else {
            let first: int = if self.address is Some {
                2
            } else {
                0
            };
            &&& next matches Act::Read { request_type, request, value, length }
            &&& request_type == 0x21
            &&& request == 2
            &&& value == (first + blocks(history)) % 0x1_0000
            &&& length <= left
            &&& length <= self.transfer_size
            &&& length <= self.room
            &&& length == left || length == self.transfer_size || length == self.room
        }
    }

    /// `next` is right after the device has answered with `status` to the last request.
    pub open spec fn follows_status(self, history: Seq<Event>, status: Seq<u8>, next: Act) -> bool {
        let code = status[4];
        if status.len() < 6 {
            next == Act::Fail(Error::ResponseTooShort { got: status.len() as usize, expected: 6 })
        } else if code > 10 {
            next == Act::Fail(Error::UnrecognizedStateCode(code))
        } else if history.len() == 1 {
            if code == 10 {
                &&& next matches Act::Write { request_type, request, value, data }
                &&& request_type == 0x21
                &&& request == 4
                &&& value == 0
                &&& data.len() == 0
            } else {
                next == asks_status(self.room)
            }
        } else if history[history.len() - 2].act is Sleep {
            if code == 5 {
                self.reads_on(history, next)
            } else if code == 4 {
                next == Act::Sleep(timeout(status))
            } else {
                next == Act::Fail(
                    Error::InvalidState { got: state_of(code), expected: State::DfuDnloadIdle },
                )
            }
        } else {
            if code == 2 {
                self.reads_on(history, next)
            } else {
                next == Act::Fail(
                    Error::InvalidState { got: state_of(code), expected: State::DfuIdle },
                )
            }
        }
    }

    /// `next` is right after all this.
    pub open spec fn follows(self, history: Seq<Event>, next: Act) -> bool {
        if history.len() == 0 {
            next == asks_status(self.room)
        } else {
            let answer = history.last().answer;
            match history.last().act {
                Act::Read { .. } => if asked_firmware(history.last()) {
                    next == Act::Store(answer)
                } else {
                    self.follows_status(history, answer, next)
                },
                Act::Write { .. } => if told_address(history.last()) {
                    next == Act::Sleep(0)
                } else {
                    next == asks_status(self.room)
                },
                Act::Sleep(_) => next == asks_status(self.room),
                Act::Store(data) => next == Act::Report(data.len() as int),
                Act::Report(n) => if n > u32::MAX {
                    next == Act::Fail(Error::MaximumTransferSizeExceeded)
                } else if n < self.transfer_size {
                    next is Done
                } else {
                    self.reads_on(history, next)
                },
                Act::Done => false,
                Act::Fail(_) => false,
            }
        }
    }
}

/// What an upload knows of its order: what it was begun with, and what is left of it.
spec fn knows(
    order: Order,
    descriptor: FunctionalDescriptor,
    protocol: ProtocolData,
    remaining: u32,
    block_num: u16,
    history: Seq<Event>,
) -> bool {
    let first: int = if order.address is Some {
        2
    } else {
        0
    };
    &&& descriptor.transfer_size == order.transfer_size
    &&& match order.address {
        None => protocol is Dfu,
        Some(address) => protocol matches ProtocolData::Dfuse(data) && data.address == address
            && data.address_set == told(history),
    }
    &&& remaining == if received(history) < order.length {
        order.length - received(history)
    } else {
        0
    }
    &&& block_num == (first + blocks(history)) % 0x1_0000
}

spec fn loop_knows(order: Order, upload_loop: UploadLoop, history: Seq<Event>) -> bool {
    &&& !upload_loop.eof
    &&& knows(
        order,
        upload_loop.descriptor,
        upload_loop.protocol,
        upload_loop.remaining,
        upload_loop.block_num,
        history,
    )
}

spec fn recv_knows(order: Order, recv: UploadChunkRecv, history: Seq<Event>) -> bool {
    &&& recv.transfer_size == order.transfer_size
    &&& order.address is Some ==> told(history)
    &&& knows(order, recv.descriptor, recv.protocol, recv.remaining, recv.block_num, history)
}

spec fn start_knows(order: Order, start: Start, history: Seq<Event>) -> bool {
    let protocol = start.protocol;
    &&& received(history) == 0
    &&& blocks(history) == 0
    &&& !told(history)
    &&& start.descriptor.transfer_size == order.transfer_size
    &&& start.remaining == order.length
    &&& match order.address {
        None => protocol is Dfu,
        Some(address) => protocol matches ProtocolData::Dfuse(data) && data.address == address
            && !data.address_set,
    }
}

spec fn wait_knows(order: Order, wait: WaitState<UploadLoop>, history: Seq<Event>) -> bool {
    &&& !wait.end
    &&& wait.intermediate == State::DfuDnbusy
    &&& wait.state == State::DfuDnloadIdle
    &&& loop_knows(order, wait.chained_command, history)
}

/// What takes the outcome in knows what has passed.
spec fn up_to_date(order: Order, now: Gathering) -> bool {
    let history = now.history;
    match now.action {
        Err(_) => true,
        Ok(UploadView::Read(request, next)) => {
            &&& (request.request == 2 <==> next is Chunk)
            &&& match next {
                UploadReply::Status(recv) => {
                    &&& history.len() == 0
                    &&& start_knows(
                        order,
                        recv.chained_command.chained_command.chained_command,
                        history,
                    )
                },
                UploadReply::Ready(recv) => {
                    &&& history.len() > 0
                    &&& history.last().act !is Sleep
                    &&& start_knows(order, recv.chained_command, history)
                },
                UploadReply::Poll(recv) => {
                    &&& history.len() > 0
                    &&& history.last().act is Sleep
                    &&& wait_knows(order, recv.chained_command, history)
                },
                UploadReply::Chunk(recv) => recv_knows(order, recv, history),
            }
        },
        Ok(UploadView::ClearStatus(control, next)) => {
            &&& control.request == 4
            &&& history.len() == 1
            &&& next matches UploadSent::Cleared(command) && start_knows(
                order,
                command.chained_command,
                history,
            )
        },
        Ok(UploadView::SetAddress(control, next)) => {
            &&& control.request == 1
            &&& next matches UploadSent::Addressed(wait) && wait.poll_timeout == 0 && wait_knows(
                order,
                wait,
                history.push(Event { act: act(now.action), answer: Seq::empty() }),
            )
        },
        Ok(UploadView::Sleep(_, next)) => wait_knows(
            order,
            next.command.chained_command,
            history,
        ),
        Ok(UploadView::Store(data, next)) => {
            &&& history.len() > 0
            &&& asked_firmware(history.last())
            &&& history.last().answer == data
            &&& next.n == data.len()
            &&& recv_knows(order, next.recv, history.drop_last())
        },
        Ok(UploadView::Progress(n, next)) => {
            let before = history.drop_last();
            &&& history.len() > 1
            &&& history.last().act is Store
            &&& asked_firmware(before.last())
            &&& next.n == n
            &&& n == before.last().answer.len()
            &&& recv_knows(order, next.recv, before.drop_last())
        },
        Ok(UploadView::Done) => true,
    }
}

/// What the loop does next is right when the device is ready.
proof fn lemma_loop_reads_on(order: Order, upload_loop: UploadLoop, history: Seq<Event>)
    requires
        loop_knows(order, upload_loop, history),
    ensures
        order.reads_on(history, act(Ok(upload_session::after_loop(upload_loop, order.room)))),
{
    let next = act(Ok(upload_session::after_loop(upload_loop, order.room)));
    if let Act::Write { data, .. } = next {
        assert(data.skip(1)[0] == data[1]);
    }
}

proof fn lemma_up_to_date_loop(
    order: Order,
    upload_loop: UploadLoop,
    now: Gathering,
)
    requires
        loop_knows(order, upload_loop, now.history),
        now.action == Ok::<_, Error>(upload_session::after_loop(upload_loop, order.room)),
    ensures
        up_to_date(order, now),
{
    if let Ok(UploadView::SetAddress(control, next)) = now.action {
        let after = now.history.push(Event { act: act(now.action), answer: Seq::empty() });
        assert(after.drop_last() =~= now.history);
    }
}

/// One step of an upload that knows what has passed.
proof fn lemma_step(order: Order, device: AnyDevice, now: Gathering)
    requires
        device.room == order.room,
        order.room <= usize::MAX,
        up_to_date(order, now),
        device.later(now) is Some,
    ensures
        order.follows(device.later(now)->0.history, act(device.later(now)->0.action)),
        up_to_date(order, device.later(now)->0),
{
    let then = device.later(now)->0;
    let history = then.history;
    assert(history.drop_last() =~= now.history);
    assert(history.last().act == act(now.action));
    match now.action {
        Ok(UploadView::Read(request, next)) => {
            let bytes = history.last().answer;
            match next {
                UploadReply::Status(_) => {},
                UploadReply::Ready(recv) => {
                    assert(history[history.len() - 2] == now.history.last());
                    if then.action is Ok {
                        let upload_loop = recv.chained(bytes)->Ok_0->Ok_0;
                        lemma_loop_reads_on(order, upload_loop, history);
                        lemma_up_to_date_loop(order, upload_loop, then);
                    }
                },
                UploadReply::Poll(recv) => {
                    assert(history[history.len() - 2] == now.history.last());
                    if then.action is Ok && bytes[4] == 5 {
                        lemma_loop_reads_on(order, recv.chained_command.chained_command, history);
                        lemma_up_to_date_loop(
                            order,
                            recv.chained_command.chained_command,
                            then,
                        );
                    }
                },
                UploadReply::Chunk(_) => {},
            }
        },
        Ok(UploadView::Progress(n, next)) => {
            let before = now.history.drop_last();
            assert(received(before) == received(before.drop_last()) + n);
            assert(blocks(before) == blocks(before.drop_last()) + 1);
            assert(told(before) == told(before.drop_last()));
            assert(received(now.history) == received(before));
            assert(blocks(now.history) == blocks(before));
            assert(told(now.history) == told(before));
            if n <= u32::MAX {
                let upload_loop = next.recv.after(n as nat)->Ok_0;
                if !upload_loop.eof {
                    lemma_loop_reads_on(order, upload_loop, history);
                    lemma_up_to_date_loop(order, upload_loop, then);
                }
            }
        },
        _ => {},
    }
}

proof fn lemma_wire(order: Order, device: AnyDevice, start: UploadStart, steps: nat)
    requires
        device.room == order.room,
        order.room <= usize::MAX,
        start_knows(
            order,
            start.command.chained_command.chained_command.chained_command,
            Seq::empty(),
        ),
    ensures
        device.after(start, steps) matches Some(now) ==> order.follows(
            now.history,
            act(now.action),
        ) && up_to_date(order, now),
    decreases steps,
{
    if steps > 0 {
        lemma_wire(order, device, start, (steps - 1) as nat);
        if let Some(now) = device.after(start, (steps - 1) as nat) {
            if device.later(now) is Some {
                lemma_step(order, device, now);
            }
        }
    }
}

/// Whatever the device answers, each thing that an upload does is the right one after all that
/// was done and answered before it: which status is asked for and cleared, how long is waited for
/// the device and for which of its answers the upload goes on or fails, which address the device
/// is told, which blocks are asked for and in which size, what is stored and reported, and when
/// the upload is over. There is such an upload if and only if the device hands its firmware out.
pub proof fn law_upload_on_the_wire<IO: DfuIo, P>(
    dfu: &DfuSync<IO, P>,
    protocol: &DfuProtocol,
    length: u32,
    begun: Result<UploadStart, Error>,
    device: AnyDevice,
    steps: nat,
)
    requires
        call_ensures(DfuSync::<IO, P>::upload_over, (dfu, protocol, length), begun),
        device.room <= usize::MAX,
    ensures
        begun is Ok <==> dfu@.dfu.descriptor.can_upload,
        begun matches Err(e) ==> e == Error::OutOfCapabilities,
        begun matches Ok(start) ==> (device.after(start, steps) matches Some(now) ==> ordered(
            dfu@.dfu,
            *protocol,
            length,
            device.room,
        ).follows(now.history, act(now.action))),
{
    if let Ok(start) = begun {
        lemma_wire(ordered(dfu@.dfu, *protocol, length, device.room), device, start, steps);
    }
}

/// The commands of an upload do the same as the upload that [`DfuSync::upload_over`] begins.
pub proof fn law_commands_on_the_wire(
    dfu: &DfuSansIo,
    protocol: &DfuProtocol,
    length: u32,
    commands: Result<GetStatus<ClearStatus<GetStatus<Start>>>, Error>,
    device: AnyDevice,
    steps: nat,
)
    requires
        call_ensures(DfuSansIo::upload, (dfu, protocol, length), commands),
        device.room <= usize::MAX,
    ensures
        commands is Ok <==> dfu.descriptor.can_upload,
        commands matches Err(e) ==> e == Error::OutOfCapabilities,
        commands matches Ok(command) ==> (device.after(
            UploadStart { command },
            steps,
        ) matches Some(now) ==> ordered(*dfu, *protocol, length, device.room).follows(
            now.history,
            act(now.action),
        )),
{
    if let Ok(command) = commands {
        let start = UploadStart { command };
        lemma_wire(ordered(*dfu, *protocol, length, device.room), device, start, steps);
    }
}

} // verus!
