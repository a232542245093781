//! What the calls of the library give: the commands of the protocol, the requests that they make,
//! and the buffer of a download.

use crate::buffer::Buffer;
use crate::command::ChainedCommand;
use crate::control::{UsbReadControl, UsbWriteControl};
use crate::error::Error;
use crate::functional_descriptor::FunctionalDescriptor;
use crate::get_status::{ClearStatus, GetStatus, GetStatusMessage, GetStatusRecv, Step, WaitState};
use crate::sans_io;
use crate::sans_io::{DfuProtocol, DfuSansIo};
use crate::session_steps;
use crate::state::State;
use crate::synchronous::wait_for_state;
use crate::upload;
use crate::upload::{
    DfuseProtocolData, ProtocolData, SetAddress, SetAddressCommand, Start, UploadChunk,
    UploadChunkRecv, UploadLoop,
};
use crate::wire;
use vstd::prelude::*;

verus! {

/// The size of a memory adds up over its layout, whatever the layout: nothing for no page, its
/// size for a single page, and the two sizes for two layouts one after the other.
pub proof fn law_layout_adds_up(a: Seq<u32>, b: Seq<u32>, page: u32)
    ensures
        sans_io::layout_size(Seq::empty()) == 0,
        sans_io::layout_size(seq![page]) == page,
        sans_io::layout_size(a.push(page)) == sans_io::layout_size(a) + page,
        sans_io::layout_size(a + b) == sans_io::layout_size(a) + sans_io::layout_size(b),
        sans_io::layout_size(a) == a.fold_left(0int, |sum: int, next: u32| sum + next),
    decreases a.len() + b.len(),
{
    assert(seq![page].drop_last() =~= Seq::empty());
    assert(a.push(page).drop_last() =~= a);
    if b.len() == 0 {
        assert(a + b =~= a);
    } else {
        assert((a + b).drop_last() =~= a + b.drop_last());
        law_layout_adds_up(a, b.drop_last(), page);
    }
    if a.len() > 0 {
        law_layout_adds_up(a.drop_last(), Seq::empty(), page);
    }
}

/// The length of an entire upload over DfuSe is the sum of all pages of the memory, if that can be
/// told in 32 bits, and else there is none. Over standard DFU it is as much as can be told.
pub proof fn law_entire_length(protocol: &DfuProtocol, length: Option<u32>)
    requires
        call_ensures(DfuProtocol::entire_length, (protocol,), length),
    ensures
        *protocol is Dfu ==> length == Some(0xffff_ffffu32),
        *protocol matches DfuProtocol::Dfuse { memory_layout, .. } ==> {
            let sum = memory_layout@.fold_left(0int, |sum: int, next: u32| sum + next);
            &&& length is Some <==> sum <= 0xffff_ffff
            &&& length matches Some(n) ==> n == sum
        },
{
    if let DfuProtocol::Dfuse { memory_layout, .. } = *protocol {
        law_layout_adds_up(memory_layout@, Seq::empty(), 0);
    }
}

/// Over DfuSe transfers begin at the address of the protocol, as long as no other was set, and
/// else at the one that was set. Standard DFU has no addresses.
pub proof fn law_transfer_address(dfu: &DfuSansIo, protocol: &DfuProtocol, begin: Option<u32>)
    requires
        call_ensures(DfuSansIo::transfer_address, (dfu, protocol), begin),
    ensures
        *protocol is Dfu ==> begin is None,
        *protocol matches DfuProtocol::Dfuse { address, .. } ==> {
            &&& dfu.override_address is None ==> begin == Some(address)
            &&& dfu.override_address matches Some(other) ==> begin == Some(other)
        },
        begin == dfu.address(*protocol),
{
}

/// The address of a new instance is not overridden; it is once it was set, to what it was set to
/// last, and the descriptor stays what it was made with.
pub proof fn law_set_address(
    descriptor: FunctionalDescriptor,
    new: DfuSansIo,
    dfu: &mut DfuSansIo,
    address: u32,
)
    requires
        call_ensures(DfuSansIo::new, (descriptor,), new),
        call_ensures(DfuSansIo::set_address, (dfu, address), ()),
    ensures
        new.descriptor == descriptor,
        new.override_address is None,
        final(dfu).descriptor == old(dfu).descriptor,
        final(dfu).override_address == Some(address),
{
}

/// A detach request is a class request to the interface with the code 0, the detach timeout of the
/// device as its value and nothing else.
pub proof fn law_detach_request(dfu: &DfuSansIo, control: UsbWriteControl<[u8; 0]>)
    requires
        call_ensures(DfuSansIo::detach, (dfu,), control),
    ensures
        control.request_type == 0x21,
        control.request == 0,
        control.value == dfu.descriptor.detach_timeout,
{
}

/// The codes of the states of a device.
pub proof fn law_code_of_state(code: u8, state: Option<State>)
    requires
        call_ensures(State::from_code, (code,), state),
    ensures
        state is Some <==> code <= 10,
        code == 0 <==> state == Some(State::AppIdle),
        code == 1 <==> state == Some(State::AppDetach),
        code == 2 <==> state == Some(State::DfuIdle),
        code == 3 <==> state == Some(State::DfuDnloadSync),
        code == 4 <==> state == Some(State::DfuDnbusy),
        code == 5 <==> state == Some(State::DfuDnloadIdle),
        code == 6 <==> state == Some(State::DfuManifestSync),
        code == 7 <==> state == Some(State::DfuManifest),
        code == 8 <==> state == Some(State::DfuManifestWaitReset),
        code == 9 <==> state == Some(State::DfuUploadIdle),
        code == 10 <==> state == Some(State::DfuError),
        state matches Some(known) ==> known.code() == code,
{
}

/// A status is read from the first six bytes of an answer, whatever comes after them: each byte
/// of it can be told again from what was read. An answer that is shorter, or that holds no code of
/// a state, is refused.
pub proof fn law_status_is_read(bytes: &[u8], read: Result<GetStatusMessage, Error>)
    requires
        call_ensures(GetStatusMessage::decode, (bytes,), read),
    ensures
        read is Ok <==> bytes@.len() >= 6 && bytes@[4] <= 10,
        read matches Ok(message) ==> {
            &&& message.status == bytes@[0]
            &&& message.poll_timeout % 0x100 == bytes@[1]
            &&& message.poll_timeout / 0x100 % 0x100 == bytes@[2]
            &&& message.poll_timeout / 0x1_0000 == bytes@[3]
            &&& message.state == wire::state_of(bytes@[4])
            &&& message.index == bytes@[5]
        },
        bytes@.len() < 6 ==> read == Err::<GetStatusMessage, Error>(
            Error::ResponseTooShort { got: bytes@.len() as usize, expected: 6 },
        ),
        bytes@.len() >= 6 && bytes@[4] > 10 ==> read == Err::<GetStatusMessage, Error>(
            Error::UnrecognizedStateCode(bytes@[4]),
        ),
{
}

/// A status request asks for the six bytes of a status, into the beginning of the buffer, or for
/// as many as fit; and the command that it was made for goes on with the answer.
pub proof fn law_status_is_asked_for<'buf, T>(
    command: GetStatus<T>,
    buffer: &'buf mut [u8],
    asked: (GetStatusRecv<T>, UsbReadControl<'buf>),
)
    requires
        call_ensures(GetStatus::<T>::get_status, (command, buffer), asked),
    ensures
        asked.0.chained_command == command.chained_command,
        asked.1.request_type == 0xa1,
        asked.1.request == 3,
        asked.1.value == 0,
        session_steps::room_in(asked.1) == wire::least(old(buffer)@.len(), 6),
        session_steps::placed(
            old(buffer)@,
            final(buffer)@,
            final(asked.1.buffer)@,
            session_steps::room_in(asked.1),
        ),
{
}

/// A command goes on with the status that the device has answered with, or not at all if the
/// answer is no status.
pub proof fn law_command_gets_the_status<T: ChainedCommand<Arg = GetStatusMessage>>(
    recv: GetStatusRecv<T>,
    bytes: &[u8],
    chained: Result<T::Into, Error>,
)
    requires
        call_ensures(GetStatusRecv::<T>::chain, (recv, bytes), chained),
    ensures
        bytes@.len() < 6 ==> chained == Err::<T::Into, Error>(
            Error::ResponseTooShort { got: bytes@.len() as usize, expected: 6 },
        ),
        bytes@.len() >= 6 && bytes@[4] > 10 ==> chained == Err::<T::Into, Error>(
            Error::UnrecognizedStateCode(bytes@[4]),
        ),
        bytes@.len() >= 6 && bytes@[4] <= 10 ==> chained == Ok::<T::Into, Error>(
            recv.chained_command.chain_spec(
                GetStatusMessage {
                    status: bytes@[0],
                    poll_timeout: wire::timeout(bytes@) as u64,
                    state: wire::state_of(bytes@[4]),
                    index: bytes@[5],
                },
            ),
        ),
{
}

/// The status of a device is cleared if and only if the device is in its error state, with a
/// class request to the interface that has the code 4. The command goes on either way.
pub proof fn law_status_is_cleared<T>(command: ClearStatus<T>, message: GetStatusMessage)
    ensures
        ({
            let (next, clear) = command.chain_spec(message);
            &&& next == command.chained_command
            &&& clear is Some <==> message.state == State::DfuError
            &&& clear matches Some(control) ==> control.request_type == 0x21 && control.request
                == 4 && control.value == 0
        }),
{
}

/// A wait begins with a status request at once. Once it is over it gives what it was begun with.
pub proof fn law_wait_begins<T>(
    intermediate: State,
    state: State,
    command: T,
    wait: WaitState<T>,
    step: Step<T>,
)
    requires
        call_ensures(WaitState::<T>::new, (intermediate, state, command), wait),
        call_ensures(WaitState::<T>::next, (wait,), step),
    ensures
        wait.state == state,
        wait.intermediate == intermediate,
        step matches Step::Wait(request, pause) && pause == 0 && request.chained_command == wait
            && wait.chained_command == command && !wait.end,
{
}

/// Each step of a wait: what it was begun with if it is over, and else a pause of the length that
/// the device has asked for last.
pub proof fn law_wait_steps<T>(wait: WaitState<T>, step: Step<T>)
    requires
        call_ensures(WaitState::<T>::next, (wait,), step),
    ensures
        step is Break <==> wait.end,
        step matches Step::Break(command) ==> command == wait.chained_command,
        step matches Step::Wait(request, pause) ==> pause == wait.poll_timeout
            && request.chained_command == wait,
{
}

/// One round of a wait that is not over, for every status that the device can answer with: the
/// wait is over if and only if the device reports the state that is waited for; it goes on, after
/// the pause that the device asks for, if and only if the device reports the intermediate one; and
/// it fails, with the reported and the awaited state, if and only if the device reports any other.
/// An answer that is no status fails for that.
pub proof fn law_wait_round<T>(
    recv: GetStatusRecv<WaitState<T>>,
    reply: &[u8],
    round: Result<Step<T>, Error>,
)
    requires
        call_ensures(wait_for_state::<T>, (recv, reply), round),
        !recv.chained_command.end,
        recv.chained_command.intermediate != recv.chained_command.state,
    ensures
        reply@.len() < 6 ==> round == Err::<Step<T>, Error>(
            Error::ResponseTooShort { got: reply@.len() as usize, expected: 6 },
        ),
        reply@.len() >= 6 && reply@[4] > 10 ==> round == Err::<Step<T>, Error>(
            Error::UnrecognizedStateCode(reply@[4]),
        ),
        reply@.len() >= 6 && reply@[4] <= 10 ==> {
            let wait = recv.chained_command;
            let reported = wire::state_of(reply@[4]);
            &&& round == Ok::<Step<T>, Error>(Step::Break(wait.chained_command)) <==> reported
                == wait.state
            &&& (round matches Ok(Step::Wait(_, _))) <==> reported == wait.intermediate
            &&& round matches Ok(Step::Wait(request, pause)) ==> {
                &&& pause == wire::timeout(reply@)
                &&& request.chained_command.state == wait.state
                &&& request.chained_command.intermediate == wait.intermediate
                &&& request.chained_command.chained_command == wait.chained_command
                &&& !request.chained_command.end
            }
            &&& round is Err <==> reported != wait.state && reported != wait.intermediate
            &&& round matches Err(e) ==> e == (Error::InvalidState {
                got: reported,
                expected: wait.state,
            })
        },
{
}

/// An upload starts if and only if the device is idle, and with all that was asked for still to
/// read: from block 0 on, or with DfuSe, which keeps two blocks for its commands, from block 2 on.
pub proof fn law_upload_starts(
    start: Start,
    message: GetStatusMessage,
    started: Result<UploadLoop, Error>,
)
    requires
        call_ensures(Start::chain, (start, message), started),
    ensures
        started is Ok <==> message.state == State::DfuIdle,
        started matches Err(e) ==> e == (Error::InvalidState {
            got: message.state,
            expected: State::DfuIdle,
        }),
        started matches Ok(upload_loop) ==> {
            &&& upload_loop.descriptor == start.descriptor
            &&& upload_loop.protocol == start.protocol
            &&& upload_loop.remaining == start.remaining
            &&& start.protocol is Dfu ==> upload_loop.block_num == 0
            &&& start.protocol is Dfuse ==> upload_loop.block_num == 2
            &&& !upload_loop.eof
        },
{
}

/// The upload loop is over if and only if the end was signalled or nothing is left to read. Else
/// the address is set if and only if there is one that was not set yet, and a chunk is read
/// otherwise, with all that the loop knows.
pub proof fn law_upload_loop_goes_on(upload_loop: UploadLoop, step: upload::Step)
    requires
        call_ensures(UploadLoop::next, (upload_loop,), step),
    ensures
        step is Break <==> upload_loop.eof || upload_loop.remaining == 0,
        step matches upload::Step::SetAddress(cmd) ==> {
            &&& upload_loop.protocol == ProtocolData::Dfuse(cmd.protocol)
            &&& !cmd.protocol.address_set
            &&& cmd.descriptor == upload_loop.descriptor
            &&& cmd.remaining == upload_loop.remaining
            &&& cmd.block_num == upload_loop.block_num
        },
        step matches upload::Step::UploadChunk(cmd) ==> {
            &&& upload_loop.protocol matches ProtocolData::Dfuse(data) ==> data.address_set
            &&& cmd.protocol == upload_loop.protocol
            &&& cmd.descriptor == upload_loop.descriptor
            &&& cmd.remaining == upload_loop.remaining
            &&& cmd.block_num == upload_loop.block_num
        },
{
}

/// The command that sets an address is sent as block 0 of a download: its code, then the address,
/// the lowest byte first. The device is waited for, and the loop then goes on as before, but with
/// the address set.
pub proof fn law_address_is_set(
    cmd: SetAddress,
    set: (WaitState<UploadLoop>, UsbWriteControl<[u8; 5]>),
)
    requires
        call_ensures(SetAddress::set_address, (cmd,), set),
    ensures
        set.1.request_type == 0x21,
        set.1.request == 1,
        set.1.value == 0,
        set.1.data@[0] == 0x21,
        wire::is_bytes_of(set.1.data@.skip(1), cmd.protocol.address),
        set.0.intermediate == State::DfuDnbusy,
        set.0.state == State::DfuDnloadIdle,
        set.0.poll_timeout == 0,
        !set.0.end,
        set.0.chained_command.descriptor == cmd.descriptor,
        set.0.chained_command.remaining == cmd.remaining,
        set.0.chained_command.block_num == cmd.block_num,
        !set.0.chained_command.eof,
        set.0.chained_command.protocol == ProtocolData::Dfuse(
            DfuseProtocolData { address: cmd.protocol.address, address_set: true },
        ),
{
    assert(set.1.data@.skip(1)[0] == set.1.data@[1]);
}

/// The payload of the command that sets an address.
pub proof fn law_address_payload(command: SetAddressCommand, payload: [u8; 5])
    requires
        call_ensures(<[u8; 5] as From<SetAddressCommand>>::from, (command,), payload),
    ensures
        payload@[0] == 0x21,
        wire::is_bytes_of(payload@.skip(1), command.0),
{
    assert(payload@.skip(1)[0] == payload@[1]);
}

/// A chunk is asked for under the number of its block, in the largest size that the buffer has
/// room for, the device sends at a time and is left to read; and taken in by what knows the same.
pub proof fn law_chunk_is_asked_for<'buf>(
    cmd: UploadChunk,
    buffer: &'buf mut [u8],
    asked: (UploadChunkRecv, UsbReadControl<'buf>),
)
    requires
        call_ensures(UploadChunk::upload, (cmd, buffer), asked),
    ensures
        asked.1.request_type == 0x21,
        asked.1.request == 2,
        asked.1.value == cmd.block_num,
        session_steps::room_in(asked.1) == wire::least(
            wire::least(old(buffer)@.len(), cmd.descriptor.transfer_size as nat),
            cmd.remaining as nat,
        ),
        session_steps::placed(
            old(buffer)@,
            final(buffer)@,
            final(asked.1.buffer)@,
            session_steps::room_in(asked.1),
        ),
        asked.0.descriptor == cmd.descriptor,
        asked.0.protocol == cmd.protocol,
        asked.0.remaining == cmd.remaining,
        asked.0.block_num == cmd.block_num,
        asked.0.transfer_size == cmd.descriptor.transfer_size,
{
}

/// A chunk of `n` bytes is counted: so many fewer are left to read, the next block has the next
/// number, which wraps around, and the end was signalled if and only if the chunk was shorter than
/// a whole transfer. A chunk that cannot be counted is refused.
pub proof fn law_chunk_is_counted(
    recv: UploadChunkRecv,
    n: usize,
    counted: Result<UploadLoop, Error>,
)
    requires
        call_ensures(UploadChunkRecv::chain, (recv, n), counted),
    ensures
        counted is Ok <==> n <= 0xffff_ffff,
        counted matches Err(e) ==> e == Error::MaximumTransferSizeExceeded,
        counted matches Ok(upload_loop) ==> {
            &&& upload_loop.descriptor == recv.descriptor
            &&& upload_loop.protocol == recv.protocol
            &&& n <= recv.remaining ==> upload_loop.remaining + n == recv.remaining
            &&& n > recv.remaining ==> upload_loop.remaining == 0
            &&& recv.block_num < 0xffff ==> upload_loop.block_num == recv.block_num + 1
            &&& recv.block_num == 0xffff ==> upload_loop.block_num == 0
            &&& upload_loop.eof <==> n < recv.transfer_size
        },
{
}

/// A buffer gives back what was put in, in order: what is read from the source is added at the
/// end, and what is consumed is dropped from the front. It holds as many bytes as it was made for.
pub proof fn law_buffer_keeps_order(
    size: usize,
    new: Buffer,
    buffer: &mut Buffer,
    read: &[u8],
    more: bool,
    other: &mut Buffer,
    amount: usize,
)
    requires
        call_ensures(Buffer::new, (size,), new),
        old(buffer).data().len() + read@.len() <= old(buffer).capacity(),
        call_ensures(Buffer::fill_buf, (buffer, read), more),
        call_ensures(Buffer::consume, (other, amount), ()),
    ensures
        new.data().len() == 0,
        new.capacity() == size,
        final(buffer).capacity() == old(buffer).capacity(),
        final(buffer).data() == old(buffer).data() + read@,
        more <==> read@.len() > 0 && old(buffer).data().len() + read@.len()
            < old(buffer).capacity(),
        final(other).capacity() == old(other).capacity(),
        old(other).data() == old(other).data().take(
            wire::least(amount as nat, old(other).data().len()) as int,
        ) + final(other).data(),
{
    assert(old(other).data() =~= old(other).data().take(
        wire::least(amount as nat, old(other).data().len()) as int,
    ) + final(other).data());
}

/// What a buffer shows is what it holds, and its room is what is left of its size.
pub proof fn law_buffer_shows_what_it_holds(buffer: &Buffer, bytes: &[u8], room: usize)
    requires
        call_ensures(Buffer::bytes, (buffer,), bytes),
        call_ensures(Buffer::room, (buffer,), room),
    ensures
        bytes@ == buffer.data(),
        bytes@.len() + room == buffer.capacity(),
{
}

} // verus!
