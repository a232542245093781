//! What a download takes from its source.

use crate::control::UsbWriteControl;
use crate::download_session::{
    DownloadFill, DownloadSent, DownloadStep, DownloadView,
};
use crate::download_wire;
use crate::download_wire::Happening;
use crate::error::Error;
use crate::get_status::{ClearStatus, GetStatus, GetStatusMessage, WaitState};
use crate::laws;
use crate::sans_io::DfuSansIo;
use crate::wire;
use vstd::prelude::*;

verus! {

/// The buffer holds what was read of `source` (its first `read` bytes) and not sent yet (all after
/// its first `sent` bytes).
pub open spec fn in_step(data: Seq<u8>, source: Seq<u8>, sent: nat, read: nat) -> bool {
    &&& sent <= read <= source.len()
    &&& data == source.subrange(sent as int, read as int)
}

/// What a download does with a buffer that holds as much of `source` as fits, or all that is left
/// of it after the first `sent` bytes. A chunk is the part of the source that comes next; and a
/// download ends before it starts if and only if there is no such part.
pub open spec fn hands_on<S, L, K, D>(
    fill: DownloadFill<K>,
    after: DownloadView<S, L, K, D>,
    capacity: nat,
    source: Seq<u8>,
    sent: nat,
) -> bool {
    let end = wire::least(sent + capacity, source.len());
    match after {
        DownloadView::Chunk(cmd, chunk, _) => fill == DownloadFill::Chunk(cmd) && chunk
            == source.subrange(sent as int, end as int),
        DownloadView::Prepare(dfu, length, _) => fill == DownloadFill::<K>::First(dfu, length)
            && sent < end,
        DownloadView::Break => fill is First && sent == end,
        _ => false,
    }
}

/// Reading from the source keeps the buffer in step with it, and goes on until there is as much
/// in the buffer as fits or the source has no more. Then the buffer is handed on.
pub proof fn law_fill_follows_source<S, L, K, D>(
    fill: DownloadFill<K>,
    data: Seq<u8>,
    capacity: nat,
    source: Seq<u8>,
    sent: nat,
    read: nat,
    n: nat,
)
    requires
        in_step(data, source, sent, read),
        data.len() + n <= capacity,
        read + n <= source.len(),
        n == 0 && data.len() < capacity ==> read == source.len(),
    ensures
        ({
            let more = data + source.subrange(read as int, (read + n) as int);
            let before = fill.due::<S, L, D>(data, capacity);
            let after = fill.went_on::<S, L, D>(more, capacity, n);
            &&& in_step(more, source, sent, read + n)
            &&& data.len() < capacity ==> before == DownloadView::<S, L, K, D>::Fill(fill)
            &&& data.len() == capacity ==> hands_on(fill, before, capacity, source, sent)
            &&& n > 0 && more.len() < capacity ==> after == DownloadView::<S, L, K, D>::Fill(fill)
            &&& n == 0 || more.len() == capacity ==> hands_on(fill, after, capacity, source, sent)
        }),
{
    let more = data + source.subrange(read as int, (read + n) as int);
    assert(more =~= source.subrange(sent as int, (read + n) as int));
}

/// What the device takes of a chunk, it takes from the source in order: the buffer goes on where
/// the device has stopped. A command takes nothing from the source.
pub proof fn law_send_follows_source<L>(
    next: DownloadSent<L>,
    data: Seq<u8>,
    source: Seq<u8>,
    sent: nat,
    read: nat,
    n: usize,
)
    requires
        in_step(data, source, sent, read),
        n <= data.len(),
    ensures
        next is Chunk ==> in_step(next.left(data, n), source, sent + n as nat, read),
        next is Command ==> in_step(next.left(data, n), source, sent, read),
{
    assert(next is Chunk ==> next.left(data, n) =~= source.subrange(sent + n, read as int));
}

/// Everything that a download meets: its source, the commands of the caller and the device, each
/// of which does as it likes.
#[verifier::reject_recursive_types(S)]
#[verifier::reject_recursive_types(L)]
#[verifier::reject_recursive_types(K)]
#[verifier::reject_recursive_types(D)]
pub struct World<S, L, K, D> {
    /// The firmware.
    pub source: Seq<u8>,
    /// How many bytes a read from the source gives at a time. It gives some if there are any.
    pub reads: spec_fn(nat) -> nat,
    /// The command chain that the download begins with.
    pub command: spec_fn(DfuSansIo, u32) -> GetStatus<ClearStatus<GetStatus<S>>>,
    /// The loop that the command turns into.
    pub start: spec_fn(S, GetStatusMessage) -> L,
    /// The next step of the loop.
    pub next: spec_fn(L) -> DownloadStep<L, K, D>,
    /// What the command that has taken a chunk sends and waits for.
    pub chunk: spec_fn(K, Seq<u8>) -> (WaitState<L>, UsbWriteControl<D>),
    /// What the device answers at a time.
    pub answers: spec_fn(nat) -> Seq<u8>,
    /// How many bytes the device takes at a time; of a chunk no more than it has.
    pub takes: spec_fn(nat) -> nat,
    /// The number of bytes that fit in the buffer.
    pub capacity: nat,
    /// The number of bytes that the host has room for in an answer.
    pub room: nat,
}

/// A download at some time.
pub struct Moment<S, L, K, D> {
    /// The number of steps up to here.
    pub time: nat,
    /// What comes next, or why nothing does.
    pub action: Result<DownloadView<S, L, K, D>, Error>,
    /// What is in the buffer.
    pub data: Seq<u8>,
    /// The number of bytes read from the source.
    pub read: nat,
    /// What the device has taken of the chunks.
    pub taken: Seq<u8>,
    /// The progress that has been reported, one report after the other.
    pub reports: Seq<nat>,
    /// What the host has done, with what came of it.
    pub history: Seq<Happening<S, L, K, D>>,
}

impl<S, L, K, D> World<S, L, K, D> {
    /// The beginning of a download of `length` bytes.
    pub open spec fn beginning(self, dfu: DfuSansIo, length: u32) -> Moment<S, L, K, D> {
        Moment {
            time: 0,
            action: Ok(DownloadFill::First(dfu, length).due(Seq::empty(), self.capacity)),
            data: Seq::empty(),
            read: 0,
            taken: Seq::empty(),
            reports: Seq::empty(),
            history: Seq::empty(),
        }
    }

    /// The number of bytes that a read gives.
    pub open spec fn gives(self, now: Moment<S, L, K, D>) -> nat {
        let most = wire::least(
            (self.capacity - now.data.len()) as nat,
            (self.source.len() - now.read) as nat,
        );
        let n = (self.reads)(now.time);
        if n == 0 {
            wire::least(1, most)
        } else {
            wire::least(n, most)
        }
    }

    /// What the host gets of the answer at a time.
    pub open spec fn answer(self, time: nat) -> Seq<u8> {
        let bytes = (self.answers)(time);
        if bytes.len() <= self.room {
            bytes
        } else {
            bytes.take(self.room as int)
        }
    }

    /// What comes of what the host does: bytes from the source or the device, or the number of
    /// bytes that the device takes.
    pub open spec fn outcome(self, now: Moment<S, L, K, D>) -> (Seq<u8>, nat) {
        match now.action {
            Ok(DownloadView::Fill(_)) => (
                self.source.subrange(now.read as int, (now.read + self.gives(now)) as int),
                0,
            ),
            Ok(DownloadView::Read(_, _)) => (self.answer(now.time), 0),
            Ok(DownloadView::Write(_, DownloadSent::Chunk(_))) => (
                Seq::empty(),
                wire::least((self.takes)(now.time), now.data.len()),
            ),
            Ok(DownloadView::Write(_, DownloadSent::Command(_))) => (
                Seq::empty(),
                (self.takes)(now.time),
            ),
            _ => (Seq::empty(), 0),
        }
    }

    /// The download one step later, unless it is over or has failed.
    pub open spec fn later(self, now: Moment<S, L, K, D>) -> Option<Moment<S, L, K, D>> {
        let (bytes, count) = self.outcome(now);
        let happening = Happening { deed: download_wire::deed(now.action), bytes, count };
        let same = Moment {
            time: now.time + 1,
            history: now.history.push(happening),
            ..now
        };
        match now.action {
            Err(_) => None,
            Ok(DownloadView::Fill(next)) => {
                let data = now.data + bytes;
                let action = Ok(next.went_on(data, self.capacity, bytes.len()));
                Some(Moment { action, data, read: now.read + bytes.len(), ..same })
            },
            Ok(DownloadView::Prepare(dfu, length, next)) => {
                let action = Ok(next.begun((self.command)(dfu, length), self.room));
                Some(Moment { action, ..same })
            },
            Ok(DownloadView::Read(_, next)) => {
                let action = next.answered(bytes, self.room);
                Some(Moment { action, ..same })
            },
            Ok(DownloadView::ClearStatus(_, next)) => {
                let action = Ok(next.taken(self.room));
                Some(Moment { action, ..same })
            },
            Ok(DownloadView::Start(cmd, message, next)) => {
                let action = Ok(next.begun((self.start)(cmd, message)));
                Some(Moment { action, ..same })
            },
            Ok(DownloadView::Next(download_loop, next)) => {
                let action = Ok(next.stepped((self.next)(download_loop), now.data, self.capacity));
                Some(Moment { action, ..same })
            },
            Ok(DownloadView::Chunk(cmd, chunk, next)) => {
                let (wait, control) = (self.chunk)(cmd, chunk);
                let action = Ok(next.handed_on(wait, control));
                Some(Moment { action, ..same })
            },
            Ok(DownloadView::Write(_, next)) => {
                let n = count as usize;
                let taken = if next is Chunk {
                    now.taken + now.data.take(n as int)
                } else {
                    now.taken
                };
                let action = Ok(next.taken(n));
                Some(Moment { action, data: next.left(now.data, n), taken, ..same })
            },
            Ok(DownloadView::Progress(n, next)) => {
                let action = Ok(next.waiting());
                Some(Moment { action, reports: now.reports.push(n as nat), ..same })
            },
            Ok(DownloadView::Sleep(_, next)) => {
                let action = Ok(next.awake(self.room));
                Some(Moment { action, ..same })
            },
            Ok(DownloadView::UsbReset) => None,
            Ok(DownloadView::Break) => None,
        }
    }

    /// The download after so many steps, if it is not over before.
    pub open spec fn after(self, dfu: DfuSansIo, length: u32, steps: nat) -> Option<
        Moment<S, L, K, D>,
    >
        decreases steps,
    {
        if steps == 0 {
            Some(self.beginning(dfu, length))
        } else {
            match self.after(dfu, length, (steps - 1) as nat) {
                Some(now) => self.later(now),
                None => None,
            }
        }
    }

    /// The buffer is in step with the source, what the device has taken is the beginning of the
    /// source, and the reports add up to its size, together with the one that is due; a chunk is
    /// the part of the source that comes after it, as much as fits, and the command chain is
    /// created for the device and the length that the download was begun with.
    pub open spec fn orderly(
        self,
        dfu: DfuSansIo,
        length: u32,
        now: Moment<S, L, K, D>,
    ) -> bool {
        let sent = now.taken.len();
        &&& in_step(now.data, self.source, sent, now.read)
        &&& now.data.len() <= self.capacity
        &&& now.taken == self.source.take(sent as int)
        &&& match now.action {
            Ok(DownloadView::Progress(n, _)) => laws::total(now.reports) + n == sent,
            _ => laws::total(now.reports) == sent,
        }
        &&& now.action matches Ok(DownloadView::Fill(fill)) ==> {
            &&& now.data.len() < self.capacity
            &&& fill is First ==> fill == DownloadFill::<K>::First(dfu, length)
        }
        &&& now.action matches Ok(DownloadView::Prepare(other, announced, _)) ==> {
            &&& other == dfu
            &&& announced == length
        }
        &&& now.action matches Ok(DownloadView::Chunk(_, chunk, _)) ==> chunk
            == self.source.subrange(
            sent as int,
            wire::least(sent + self.capacity, self.source.len()) as int,
        )
    }
}

proof fn lemma_stays_orderly<S, L, K, D>(
    world: World<S, L, K, D>,
    dfu: DfuSansIo,
    length: u32,
    now: Moment<S, L, K, D>,
)
    requires
        world.capacity <= 0xffff,
        world.orderly(dfu, length, now),
        world.later(now) is Some,
    ensures
        world.orderly(dfu, length, world.later(now)->0),
{
    let sent = now.taken.len();
    match now.action {
        Ok(DownloadView::Fill(next)) => {
            law_fill_follows_source::<S, L, K, D>(
                next,
                now.data,
                world.capacity,
                world.source,
                sent,
                now.read,
                world.gives(now),
            );
        },
        Ok(DownloadView::Next(download_loop, _)) => {
            if let DownloadStep::DownloadChunk(cmd) = (world.next)(download_loop) {
                let fill = DownloadFill::Chunk(cmd);
                if now.data.len() == world.capacity {
                    law_fill_follows_source::<S, L, K, D>(
                        fill,
                        now.data,
                        world.capacity,
                        world.source,
                        sent,
                        now.read,
                        0,
                    );
                }
            }
        },
        Ok(DownloadView::Write(_, next)) => {
            let n = world.outcome(now).1 as usize;
            if next is Chunk {
                law_send_follows_source(next, now.data, world.source, sent, now.read, n);
                assert(world.source.take(sent as int) + now.data.take(n as int)
                    =~= world.source.take(sent + n));
            }
        },
        Ok(DownloadView::Progress(n, _)) => {
            assert(now.reports.push(n as nat).drop_last() =~= now.reports);
        },
        _ => {},
    }
}

/// Whatever the commands of the caller and the device do, and however the source gives its bytes,
/// at every time of a download what the device has taken is the beginning of the source, and a
/// chunk is the part of the source that comes after it, as much as fits in one transfer. The
/// progress reports add up to the number of bytes that the device has taken, once what it took of
/// the last chunk is reported. The command chain is created for the device and the length that the
/// download was begun with.
pub proof fn law_download_follows_source<S, L, K, D>(
    world: World<S, L, K, D>,
    dfu: DfuSansIo,
    length: u32,
    steps: nat,
)
    requires
        world.capacity <= 0xffff,
    ensures
        world.after(dfu, length, steps) matches Some(now) ==> world.orderly(dfu, length, now),
    decreases steps,
{
    if steps == 0 {
        assert(world.source.subrange(0, 0) =~= Seq::empty());
        assert(world.source.take(0) =~= Seq::empty());
    } else {
        law_download_follows_source(world, dfu, length, (steps - 1) as nat);
        if let Some(now) = world.after(dfu, length, (steps - 1) as nat) {
            if world.later(now) is Some {
                lemma_stays_orderly(world, dfu, length, now);
            }
        }
    }
}

} // verus!
