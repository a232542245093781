//! The calls that take a session from one thing to do to the next, and that they are the steps
//! which a whole upload or download is made of.

use crate::buffer::Buffer;
use crate::control::{UsbReadControl, UsbWriteControl};
use crate::download_session::{
    DownloadAction, DownloadChunk, DownloadCleared, DownloadFill, DownloadNext, DownloadPrepare,
    DownloadReply, DownloadReported, DownloadSent, DownloadSlept, DownloadStart, DownloadStep,
    DownloadView,
};
use crate::error::Error;
use crate::get_status::{ClearStatus, GetStatus, GetStatusMessage, WaitState};
use crate::sans_io::DfuSansIo;
use crate::upload_session::{
    UploadAction, UploadReply, UploadReported, UploadSent, UploadSlept, UploadStart, UploadStored,
    UploadView,
};
use crate::wire;
use vstd::prelude::*;

verus! {

/// The number of bytes that `control` has room for.
pub open spec fn room_in<'buf>(control: UsbReadControl<'buf>) -> nat {
    control.buffer@.len()
}

/// With an answer of `n` bytes, what was `before` in a buffer is `after` in it: the answer stands
/// at the beginning, and the rest is as it was.
pub open spec fn placed(before: Seq<u8>, after: Seq<u8>, answer: Seq<u8>, n: nat) -> bool {
    &&& n <= before.len()
    &&& after == answer + before.skip(n as int)
}

/// What an upload does next is seen as it stands.
pub proof fn law_upload_is_seen<'buf>(
    action: UploadAction<'buf>,
    data: &'buf [u8],
    n: usize,
    poll_timeout: u64,
    clear: UsbWriteControl<[u8; 0]>,
    tell: UsbWriteControl<[u8; 5]>,
    control: UsbReadControl<'buf>,
    reply: UploadReply,
    sent: UploadSent,
    slept: UploadSlept,
    stored: UploadStored,
    reported: UploadReported,
)
    ensures
        action == UploadAction::Read(control, reply) ==> {
            &&& wire::act(Ok(action@)) == wire::Act::Read {
                request_type: control.request_type,
                request: control.request,
                value: control.value,
                length: room_in(control),
            }
            &&& action@->Read_1 == reply
        },
        action == UploadAction::<'buf>::ClearStatus(clear, sent) ==> {
            &&& wire::act(Ok(action@)) == wire::Act::Write {
                request_type: clear.request_type,
                request: clear.request,
                value: clear.value,
                data: clear.data@,
            }
            &&& action@->ClearStatus_1 == sent
        },
        action == UploadAction::<'buf>::SetAddress(tell, sent) ==> {
            &&& wire::act(Ok(action@)) == wire::Act::Write {
                request_type: tell.request_type,
                request: tell.request,
                value: tell.value,
                data: tell.data@,
            }
            &&& action@->SetAddress_1 == sent
        },
        action == UploadAction::<'buf>::Sleep(poll_timeout, slept) ==> action@
            == UploadView::Sleep(poll_timeout, slept),
        action == UploadAction::Store(data, stored) ==> action@ == UploadView::Store(data@, stored),
        action == UploadAction::<'buf>::Progress(n, reported) ==> action@ == UploadView::Progress(
            n,
            reported,
        ),
        action == UploadAction::<'buf>::Done ==> action@ == UploadView::Done,
{
}

/// The beginning of an upload is that of a whole one.
pub proof fn law_upload_begins<'buf>(
    start: UploadStart,
    buffer: &'buf mut [u8],
    action: UploadAction<'buf>,
)
    requires
        call_ensures(UploadStart::begin, (start, buffer), action),
    ensures
        action@ == start.begun(old(buffer)@.len()),
        action matches UploadAction::Read(control, _) ==> placed(
            old(buffer)@,
            final(buffer)@,
            final(control.buffer)@,
            room_in(control),
        ),
{
}

/// An upload that takes an answer in goes on as a whole one does after the same answer, and fails
/// with the same error.
pub proof fn law_upload_takes_answer<'buf>(
    reply: UploadReply,
    buffer: &'buf mut [u8],
    n: usize,
    action: Result<UploadAction<'buf>, Error>,
)
    requires
        n <= old(buffer)@.len(),
        call_ensures(UploadReply::received, (reply, buffer, n), action),
    ensures
        ({
            let bytes = old(buffer)@.take(n as int);
            let after = reply.answered(bytes, old(buffer)@.len());
            match action {
                Ok(next) => after == Ok::<UploadView, Error>(next@)
                    && (next matches UploadAction::Read(control, _) ==> placed(
                        old(buffer)@,
                        final(buffer)@,
                        final(control.buffer)@,
                        room_in(control),
                    )),
                Err(e) => after == Err::<UploadView, Error>(e),
            }
        }),
{
}

/// An upload goes on after a control transfer to the device, a pause, a chunk that was stored and
/// a report as a whole one does.
pub proof fn law_upload_goes_on<'buf>(
    sent: UploadSent,
    slept: UploadSlept,
    stored: UploadStored,
    reported: UploadReported,
    buffer: &'buf mut [u8],
    after_sent: UploadAction<'buf>,
    after_sleep: UploadAction<'buf>,
    after_store: UploadAction<'buf>,
    after_report: Result<UploadAction<'buf>, Error>,
)
    ensures
        call_ensures(UploadSent::sent, (sent, buffer), after_sent) ==> after_sent@ == sent.taken(
            old(buffer)@.len(),
        )
            && (after_sent matches UploadAction::Read(control, _) ==> placed(
                old(buffer)@,
                final(buffer)@,
                final(control.buffer)@,
                room_in(control),
            )),
        call_ensures(UploadSlept::slept, (slept, buffer), after_sleep) ==> after_sleep@
            == slept.awake(old(buffer)@.len())
                && (after_sleep matches UploadAction::Read(control, _) ==> placed(
                    old(buffer)@,
                    final(buffer)@,
                    final(control.buffer)@,
                    room_in(control),
                )),
        call_ensures(UploadStored::stored, (stored,), after_store) ==> after_store@
            == stored.written(),
        call_ensures(
            UploadReported::reported,
            (reported, buffer),
            after_report,
        ) ==> match after_report {
            Ok(next) => reported.counted(old(buffer)@.len()) == Ok::<UploadView, Error>(next@)
                    && (next matches UploadAction::Read(control, _) ==> placed(
                        old(buffer)@,
                        final(buffer)@,
                        final(control.buffer)@,
                        room_in(control),
                    )),
            Err(e) => reported.counted(old(buffer)@.len()) == Err::<UploadView, Error>(e),
        },
{
}

/// What a download does next is seen as it stands.
pub proof fn law_download_is_seen<'buf, S, L, K, D>(
    action: DownloadAction<'buf, S, L, K, D>,
    fill: DownloadFill<K>,
    dfu: DfuSansIo,
    length: u32,
    message: GetStatusMessage,
    start: S,
    download_loop: L,
    chunk: K,
    data: &'buf [u8],
    n: usize,
    poll_timeout: u64,
    clear: UsbWriteControl<[u8; 0]>,
    write: UsbWriteControl<D>,
    control: UsbReadControl<'buf>,
    reply: DownloadReply<S, L>,
    cleared: DownloadCleared<S>,
    sent: DownloadSent<L>,
    reported: DownloadReported<L>,
    slept: DownloadSlept<L>,
)
    ensures
        action == DownloadAction::<'buf, S, L, K, D>::Fill(fill) ==> action@ == DownloadView::<
            S,
            L,
            K,
            D,
        >::Fill(fill),
        action == DownloadAction::<'buf, S, L, K, D>::Prepare(dfu, length, DownloadPrepare)
            ==> action@ == DownloadView::<S, L, K, D>::Prepare(dfu, length, DownloadPrepare),
        action == DownloadAction::<'buf, S, L, K, D>::Read(control, reply) ==> {
            &&& action@ matches DownloadView::Read(request, next)
            &&& request.request_type == control.request_type
            &&& request.request == control.request
            &&& request.value == control.value
            &&& request.length == room_in(control)
            &&& next == reply
        },
        action == DownloadAction::<'buf, S, L, K, D>::ClearStatus(clear, cleared) ==> action@
            == DownloadView::<S, L, K, D>::ClearStatus(clear, cleared),
        action == DownloadAction::<'buf, S, L, K, D>::Start(start, message, DownloadStart)
            ==> action@ == DownloadView::<S, L, K, D>::Start(start, message, DownloadStart),
        action == DownloadAction::<'buf, S, L, K, D>::Next(download_loop, DownloadNext) ==> action@
            == DownloadView::<S, L, K, D>::Next(download_loop, DownloadNext),
        action == DownloadAction::<'buf, S, L, K, D>::Chunk(chunk, data, DownloadChunk) ==> action@
            == DownloadView::<S, L, K, D>::Chunk(chunk, data@, DownloadChunk),
        action == DownloadAction::<'buf, S, L, K, D>::Write(write, sent) ==> action@
            == DownloadView::<S, L, K, D>::Write(write, sent),
        action == DownloadAction::<'buf, S, L, K, D>::Progress(n, reported) ==> action@
            == DownloadView::<S, L, K, D>::Progress(n, reported),
        action == DownloadAction::<'buf, S, L, K, D>::Sleep(poll_timeout, slept) ==> action@
            == DownloadView::<S, L, K, D>::Sleep(poll_timeout, slept),
        action == DownloadAction::<'buf, S, L, K, D>::UsbReset ==> action@ == DownloadView::<
            S,
            L,
            K,
            D,
        >::UsbReset,
        action == DownloadAction::<'buf, S, L, K, D>::Break ==> action@ == DownloadView::<
            S,
            L,
            K,
            D,
        >::Break,
{
}

/// The buffer of a download is filled as that of a whole one is: a read adds what the source has
/// given at the end, and nothing is lost.
pub proof fn law_download_fills<'buf, S, L, K, D>(
    fill: DownloadFill<K>,
    reader: &'buf mut Buffer,
    read: &[u8],
    begun: DownloadAction<'buf, S, L, K, D>,
    filled: DownloadAction<'buf, S, L, K, D>,
)
    requires
        old(reader).data().len() + read@.len() <= old(reader).capacity(),
    ensures
        call_ensures(DownloadFill::<K>::begin::<S, L, D>, (fill, reader), begun) ==> {
            &&& begun@ == fill.due::<S, L, D>(old(reader).data(), old(reader).capacity())
            &&& final(reader).data() == old(reader).data()
            &&& final(reader).capacity() == old(reader).capacity()
        },
        call_ensures(DownloadFill::<K>::filled::<S, L, D>, (fill, reader, read), filled) ==> {
            let data = old(reader).data() + read@;
            &&& filled@ == fill.went_on::<S, L, D>(data, old(reader).capacity(), read@.len())
            &&& final(reader).data() == data
            &&& final(reader).capacity() == old(reader).capacity()
        },
{
}

/// A download that takes an answer in goes on as a whole one does after the same answer, and fails
/// with the same error.
pub proof fn law_download_takes_answer<'buf, S, L, K, D>(
    reply: DownloadReply<S, L>,
    buffer: &'buf mut [u8],
    n: usize,
    action: Result<DownloadAction<'buf, S, L, K, D>, Error>,
)
    requires
        n <= old(buffer)@.len(),
        call_ensures(DownloadReply::<S, L>::received::<K, D>, (reply, buffer, n), action),
    ensures
        ({
            let bytes = old(buffer)@.take(n as int);
            let after = reply.answered::<K, D>(bytes, old(buffer)@.len());
            match action {
                Ok(next) => after == Ok::<DownloadView<S, L, K, D>, Error>(next@)
                        && (next matches DownloadAction::Read(control, _) ==> placed(
                            old(buffer)@,
                            final(buffer)@,
                            final(control.buffer)@,
                            room_in(control),
                        )),
                Err(e) => after == Err::<DownloadView<S, L, K, D>, Error>(e),
            }
        }),
{
}

/// A download goes on after its command chain is there, the status was cleared, the loop has begun
/// and told its step, a chunk was taken, a report and a pause as a whole one does.
pub proof fn law_download_goes_on<'buf, S, L, K, D>(
    command: GetStatus<ClearStatus<GetStatus<S>>>,
    cleared: DownloadCleared<S>,
    download_loop: L,
    step: DownloadStep<L, K, D>,
    wait: WaitState<L>,
    control: UsbWriteControl<D>,
    reported: DownloadReported<L>,
    slept: DownloadSlept<L>,
    buffer: &'buf mut [u8],
    reader: &'buf mut Buffer,
    after: DownloadAction<'buf, S, L, K, D>,
)
    ensures
        call_ensures(
            DownloadPrepare::prepared::<S, L, K, D>,
            (DownloadPrepare, command, buffer),
            after,
        ) ==> after@ == DownloadPrepare.begun::<S, L, K, D>(command, old(buffer)@.len())
                && (after matches DownloadAction::Read(control, _) ==> placed(
                    old(buffer)@,
                    final(buffer)@,
                    final(control.buffer)@,
                    room_in(control),
                )),
        call_ensures(DownloadCleared::<S>::sent::<L, K, D>, (cleared, buffer), after) ==> after@
            == cleared.taken::<L, K, D>(old(buffer)@.len())
                && (after matches DownloadAction::Read(control, _) ==> placed(
                    old(buffer)@,
                    final(buffer)@,
                    final(control.buffer)@,
                    room_in(control),
                )),
        call_ensures(
            DownloadStart::started::<S, L, K, D>,
            (DownloadStart, download_loop),
            after,
        ) ==> after@ == DownloadStart.begun::<S, L, K, D>(download_loop),
        call_ensures(
            DownloadNext::step::<S, L, K, D>,
            (DownloadNext, step, reader),
            after,
        ) ==> {
            &&& after@ == DownloadNext.stepped::<S, L, K, D>(
                step,
                old(reader).data(),
                old(reader).capacity(),
            )
            &&& final(reader).data() == old(reader).data()
            &&& final(reader).capacity() == old(reader).capacity()
        },
        call_ensures(
            DownloadChunk::prepared::<S, L, K, D>,
            (DownloadChunk, wait, control),
            after,
        ) ==> after@ == DownloadChunk.handed_on::<S, L, K, D>(wait, control),
        call_ensures(DownloadReported::<L>::reported::<S, K, D>, (reported,), after) ==> after@
            == reported.waiting::<S, K, D>(),
        call_ensures(DownloadSlept::<L>::slept::<S, K, D>, (slept, buffer), after) ==> after@
            == slept.awake::<S, K, D>(old(buffer)@.len())
                && (after matches DownloadAction::Read(control, _) ==> placed(
                    old(buffer)@,
                    final(buffer)@,
                    final(control.buffer)@,
                    room_in(control),
                )),
{
}

/// Whatever number of bytes the device says that it has taken: of a chunk so many are dropped from
/// the front of the buffer, or all if there are fewer, and reported; of a command nothing is. The
/// wait is the one that was handed in: it begins after the report, or at once after a command.
pub proof fn law_download_sends<'buf, S, L, K, D>(
    wait: WaitState<L>,
    reader: &mut Buffer,
    n: usize,
    chunk: DownloadAction<'buf, S, L, K, D>,
    command: DownloadAction<'buf, S, L, K, D>,
)
    ensures
        call_ensures(
            DownloadSent::<L>::sent::<S, K, D>,
            (DownloadSent::Chunk(wait), reader, n),
            chunk,
        ) ==> {
            let gone = wire::least(n as nat, old(reader).data().len()) as int;
            &&& chunk@ matches DownloadView::Progress(told, next) && told == n && next.wait == wait
            &&& old(reader).data() == old(reader).data().take(gone) + final(reader).data()
            &&& final(reader).capacity() == old(reader).capacity()
        },
        call_ensures(
            DownloadSent::<L>::sent::<S, K, D>,
            (DownloadSent::Command(wait), reader, n),
            command,
        ) ==> {
            &&& wait.end ==> command@ == DownloadView::<S, L, K, D>::Next(
                wait.chained_command,
                DownloadNext,
            )
            &&& !wait.end ==> (command@ matches DownloadView::Sleep(pause, next) && pause
                == wait.poll_timeout && next.command.chained_command == wait)
            &&& final(reader).data() == old(reader).data()
            &&& final(reader).capacity() == old(reader).capacity()
        },
        DownloadSent::Chunk(wait).taken::<S, K, D>(n) == DownloadView::<S, L, K, D>::Progress(
            n,
            DownloadReported { wait },
        ),
{
    let gone = wire::least(n as nat, old(reader).data().len()) as int;
    let left = DownloadSent::Chunk(wait).left(old(reader).data(), n);
    assert(old(reader).data() =~= old(reader).data().take(gone) + left);
}

} // verus!
