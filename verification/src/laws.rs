//! What holds of the protocol, whatever a device answers.

use crate::command::ChainedCommand;
use crate::download_session;
use crate::download_session::{
    DownloadFill, DownloadNext, DownloadReply, DownloadSent, DownloadStep, DownloadView,
};
use crate::error::Error;
use crate::get_status;
use crate::get_status::{GetStatusMessage, GetStatusRecv, Step, WaitState};
use crate::sans_io::{DfuProtocol, DfuSansIo};
use crate::state::State;
use crate::synchronous::DfuSyncView;
use crate::upload;
use crate::upload::{DfuseProtocolData, ProtocolData, Start, UploadLoop};
use crate::upload_session;
use crate::upload_session::{UploadReply, UploadSent, UploadView};
use vstd::prelude::*;

verus! {

/// A device that does not hand its firmware out is never asked to, and every other one is.
pub proof fn law_upload_needs_capability(dfu: DfuSansIo, protocol: DfuProtocol, length: u32)
    ensures
        dfu.upload_chain(protocol, length) is Ok <==> dfu.descriptor.can_upload,
        !dfu.descriptor.can_upload ==> dfu.upload_chain(protocol, length) == Err::<
            get_status::GetStatus<get_status::ClearStatus<get_status::GetStatus<Start>>>,
            Error,
        >(Error::OutOfCapabilities),
{
}

/// However often the address is overridden, the last call wins, and nothing but the address
/// changes. An upload starts at the address if the device uses DfuSe, and is the same as without
/// it if the device does not.
pub proof fn law_override_reaches_upload<IO, P>(
    sync: DfuSyncView<IO, P>,
    earlier: u32,
    address: u32,
    protocol: DfuProtocol,
    length: u32,
)
    ensures
        ({
            let after = sync.overridden(earlier).overridden(address);
            &&& after == sync.overridden(address)
            &&& protocol is Dfu ==> after.upload(protocol, length) == sync.upload(protocol, length)
            &&& protocol is Dfuse ==> (after.upload(protocol, length) matches Ok(start) ==> {
                let data = start.command.chained_command.chained_command.chained_command.protocol;
                data == ProtocolData::Dfuse(DfuseProtocolData { address, address_set: false })
            })
        }),
{
}

/// However often the address is overridden, the last call wins: a download that there is
/// something for is prepared with the address if the device uses DfuSe, and with none if the
/// device does not.
pub proof fn law_override_reaches_download<IO, P, S, L, K, D>(
    sync: DfuSyncView<IO, P>,
    earlier: u32,
    address: u32,
    protocol: DfuProtocol,
    length: u32,
    data: Seq<u8>,
)
    requires
        data.len() > 0,
    ensures
        ({
            let after = sync.overridden(earlier).overridden(address);
            let fill: DownloadFill<K> = after.download(length);
            &&& fill.filled_up::<S, L, D>(data) matches DownloadView::Prepare(dfu, announced, _)
            &&& announced == length
            &&& dfu.descriptor == sync.dfu.descriptor
            &&& protocol is Dfuse ==> dfu.address(protocol) == Some(address)
            &&& protocol is Dfu ==> dfu.address(protocol) is None
        }),
{
}

/// Whatever status a device reports after its status was cleared, the upload starts if and only
/// if the device is idle; otherwise it fails with the state that the device is in.
pub proof fn law_upload_starts_idle(start: Start, bytes: Seq<u8>, room: nat)
    requires
        get_status::decoded(bytes) is Ok,
    ensures
        ({
            let state = get_status::decoded(bytes)->Ok_0.state;
            let after = UploadReply::Ready(GetStatusRecv { chained_command: start }).answered(
                bytes,
                room,
            );
            &&& after is Ok <==> state == State::DfuIdle
            &&& after matches Err(e) ==> e == (Error::InvalidState {
                got: state,
                expected: State::DfuIdle,
            })
        }),
{
}

/// Over standard DFU no address is ever set.
pub proof fn law_dfu_sets_no_address(upload_loop: UploadLoop, room: nat, n: nat)
    requires
        upload_loop.protocol is Dfu,
    ensures
        upload_session::after_loop(upload_loop, room) !is SetAddress,
        upload_loop.due() matches upload::Step::UploadChunk(cmd) ==> (cmd.receiver().after(
            n,
        ) matches Ok(next) ==> next.protocol is Dfu),
{
}

/// Over DfuSe the address is set before the first chunk. The device is waited for, and the loop
/// that goes on after that asks for the same bytes under the same block number, with the address
/// set.
pub proof fn law_dfuse_sets_address_first(upload_loop: UploadLoop, room: nat)
    requires
        upload_loop.needs_address(),
        !upload_loop.finished(),
    ensures
        upload_session::after_loop(upload_loop, room) matches UploadView::SetAddress(
            control,
            UploadSent::Addressed(wait),
        ) && {
            &&& control.data == upload::set_address_payload(upload_loop.protocol->Dfuse_0.address)
            &&& !wait.chained_command.needs_address()
            &&& !wait.chained_command.finished()
            &&& wait.chained_command.remaining == upload_loop.remaining
            &&& wait.chained_command.block_num == upload_loop.block_num
            &&& UploadSent::Addressed(wait).taken(room) is Sleep
        },
{
}

/// The loop after chunks of these sizes, if it asks for that many.
pub open spec fn after_chunks(upload_loop: UploadLoop, sizes: Seq<nat>) -> Option<UploadLoop>
    decreases sizes.len(),
{
    if sizes.len() == 0 {
        Some(upload_loop)
    } else {
        match after_chunks(upload_loop, sizes.drop_last()) {
            None => None,
            Some(last) => match last.due() {
                upload::Step::UploadChunk(cmd) => match cmd.receiver().after(sizes.last()) {
                    Ok(next) => Some(next),
                    Err(_) => None,
                },
                _ => None,
            },
        }
    }
}

/// The number of bytes in chunks of these sizes.
pub open spec fn total(sizes: Seq<nat>) -> nat
    decreases sizes.len(),
{
    if sizes.len() == 0 {
        0
    } else {
        total(sizes.drop_last()) + sizes.last()
    }
}

/// No chunk has more bytes than it was asked for when the host has `room` bytes.
pub open spec fn modest(upload_loop: UploadLoop, sizes: Seq<nat>, room: nat) -> bool {
    forall|i: int|
        0 <= i < sizes.len() ==> (after_chunks(upload_loop, sizes.take(i)) matches Some(before)
            ==> #[trigger] sizes[i] <= before.due()->UploadChunk_0.length(room))
}

/// Whatever chunks a device sends: the block number goes up by one with each and wraps around, the
/// address is not set again, and the loop goes on only as long as every chunk was a whole
/// transfer, so that it ends as soon as the transfers make up what was asked for.
pub proof fn law_chunks_in_order(upload_loop: UploadLoop, sizes: Seq<nat>)
    requires
        after_chunks(upload_loop, sizes) is Some,
    ensures
        ({
            let after = after_chunks(upload_loop, sizes)->0;
            let size = upload_loop.descriptor.transfer_size;
            &&& after.descriptor == upload_loop.descriptor
            &&& after.protocol == upload_loop.protocol
            &&& after.block_num == (upload_loop.block_num + sizes.len()) % 0x1_0000
            &&& sizes.len() > 0 ==> !after.needs_address()
            &&& sizes.len() > 0 && !after.finished() ==> {
                &&& forall|i: int| 0 <= i < sizes.len() ==> #[trigger] sizes[i] >= size
                &&& sizes.len() * size <= total(sizes)
                &&& total(sizes) < upload_loop.remaining
            }
        }),
    decreases sizes.len(),
{
    if sizes.len() > 0 {
        let before = sizes.drop_last();
        law_chunks_in_order(upload_loop, before);
        let size = upload_loop.descriptor.transfer_size;
        assert(sizes.len() * size == before.len() * size + size) by (nonlinear_arith)
            requires
                sizes.len() == before.len() + 1,
        ;
        lemma_remaining(upload_loop, sizes);
        let after = after_chunks(upload_loop, sizes)->0;
        if !after.finished() {
            assert forall|i: int| 0 <= i < sizes.len() implies #[trigger] sizes[i] >= size by {
                if i < before.len() {
                    assert(sizes[i] == before[i]);
                }
            }
        }
        if before.len() == 0 {
            assert(before.len() * size == 0) by (nonlinear_arith)
                requires
                    before.len() == 0,
            ;
        }
    }
}

proof fn lemma_remaining(upload_loop: UploadLoop, sizes: Seq<nat>)
    requires
        after_chunks(upload_loop, sizes) is Some,
    ensures
        ({
            let after = after_chunks(upload_loop, sizes)->0;
            after.remaining == if total(sizes) < upload_loop.remaining {
                upload_loop.remaining - total(sizes)
            } else {
                0
            }
        }),
    decreases sizes.len(),
{
    if sizes.len() > 0 {
        lemma_remaining(upload_loop, sizes.drop_last());
    }
}

/// Whatever chunks a device sends, as long as no chunk has more bytes than it was asked for, what
/// was received and what remains make up what was asked for: never more than that is received.
pub proof fn law_never_more_than_asked(upload_loop: UploadLoop, sizes: Seq<nat>, room: nat)
    requires
        after_chunks(upload_loop, sizes) is Some,
        modest(upload_loop, sizes, room),
    ensures
        total(sizes) + after_chunks(upload_loop, sizes)->0.remaining == upload_loop.remaining,
    decreases sizes.len(),
{
    if sizes.len() > 0 {
        let before = sizes.drop_last();
        assert(sizes.take(sizes.len() - 1) =~= before);
        assert forall|i: int| 0 <= i < before.len() implies (after_chunks(
            upload_loop,
            before.take(i),
        ) matches Some(earlier) ==> #[trigger] before[i] <= earlier.due()->UploadChunk_0.length(
            room,
        )) by {
            assert(before.take(i) =~= sizes.take(i));
            assert(before[i] == sizes[i]);
        }
        law_never_more_than_asked(upload_loop, before, room);
        assert(sizes[sizes.len() - 1] == sizes.last());
    }
}

/// The wait after the device has reported these statuses, one after the other.
pub open spec fn polled<T>(wait: WaitState<T>, messages: Seq<GetStatusMessage>) -> Result<
    WaitState<T>,
    Error,
>
    decreases messages.len(),
{
    if messages.len() == 0 {
        Ok(wait)
    } else {
        match polled(wait, messages.drop_last()) {
            Err(e) => Err(e),
            Ok(last) => last.chain_spec(messages.last()),
        }
    }
}

/// However often a device reports the intermediate state, the wait goes on, with the pause that
/// the device has asked for last. It is over as soon as the device reports the state that is
/// waited for, and fails as soon as it reports any other.
pub proof fn law_wait<T>(
    wait: WaitState<T>,
    messages: Seq<GetStatusMessage>,
    message: GetStatusMessage,
)
    requires
        !wait.end,
        wait.intermediate != wait.state,
        forall|i: int| 0 <= i < messages.len() ==> #[trigger] messages[i].state
            == wait.intermediate,
    ensures
        ({
            let still = WaitState {
                poll_timeout: if messages.len() == 0 {
                    wait.poll_timeout
                } else {
                    messages.last().poll_timeout
                },
                ..wait
            };
            let next = polled(wait, messages.push(message));
            &&& polled(wait, messages) == Ok::<WaitState<T>, Error>(still)
            &&& still.due() is Wait
            &&& still.due()->Wait_1 == still.poll_timeout
            &&& message.state == wait.state ==> next is Ok && next->Ok_0.due() == Step::Break(
                wait.chained_command,
            )
            &&& message.state != wait.state && message.state != wait.intermediate ==> next == Err::<
                WaitState<T>,
                Error,
            >(Error::InvalidState { got: message.state, expected: wait.state })
        }),
    decreases messages.len(),
{
    assert(messages.push(message).drop_last() =~= messages);
    if messages.len() > 0 {
        let before = messages.drop_last();
        law_wait(wait, before, messages.last());
        assert(before.push(messages.last()) =~= messages);
    }
}

/// The device is reset if and only if the loop says so, and a download is over with the device on
/// the bus if and only if the loop says so or there was nothing to download to begin with. No
/// status, no transfer and no wait ends a download, except with an error.
pub proof fn law_download_outcome<S, L, K, D>(
    step: DownloadStep<L, K, D>,
    fill: DownloadFill<K>,
    data: Seq<u8>,
    capacity: nat,
    n: nat,
    reply: DownloadReply<S, L>,
    bytes: Seq<u8>,
    room: nat,
    sent: DownloadSent<L>,
    taken: usize,
    wait: Step<L>,
)
    ensures
        DownloadNext.stepped::<S, L, K, D>(step, data, capacity) is UsbReset <==> step is UsbReset,
        DownloadNext.stepped::<S, L, K, D>(step, data, capacity) is Break <==> step is Break,
        fill.due::<S, L, D>(data, capacity) !is UsbReset,
        fill.due::<S, L, D>(data, capacity) is Break <==> fill is First && data.len() == 0
            && capacity == 0,
        fill.went_on::<S, L, D>(data, capacity, n) !is UsbReset,
        fill.went_on::<S, L, D>(data, capacity, n) is Break <==> fill is First && data.len() == 0
            && (n == 0 || capacity == 0),
        reply.answered::<K, D>(bytes, room) matches Ok(after) ==> after !is UsbReset && after
            !is Break,
        sent.taken::<S, K, D>(taken) !is UsbReset,
        sent.taken::<S, K, D>(taken) !is Break,
        download_session::after_wait::<S, L, K, D>(wait) !is UsbReset,
        download_session::after_wait::<S, L, K, D>(wait) !is Break,
{
}

} // verus!
