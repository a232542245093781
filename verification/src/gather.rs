//! What an upload gathers, whatever the device answers.

use crate::error::Error;
use crate::upload_session::{UploadStart, UploadView};
use crate::wire;
use crate::wire::Event;
use vstd::prelude::*;

verus! {

/// A device that answers as it likes.
pub struct AnyDevice {
    /// What the device answers at a time.
    pub answers: spec_fn(nat) -> Seq<u8>,
    /// The number of bytes that the host has room for in an answer.
    pub room: nat,
}

/// An upload at some time.
pub struct Gathering {
    /// The number of steps up to here.
    pub time: nat,
    /// What comes next, or why nothing does.
    pub action: Result<UploadView, Error>,
    /// What the device has answered to the requests for firmware, one by one.
    pub chunks: Seq<Seq<u8>>,
    /// What has been stored.
    pub stored: Seq<u8>,
    /// The progress that has been reported, one report after the other.
    pub reports: Seq<nat>,
    /// What the host has done, with what was answered to it.
    pub history: Seq<Event>,
}

/// All chunks, one after the other.
pub open spec fn joined(chunks: Seq<Seq<u8>>) -> Seq<u8>
    decreases chunks.len(),
{
    if chunks.len() == 0 {
        Seq::empty()
    } else {
        joined(chunks.drop_last()) + chunks.last()
    }
}

/// The size of each chunk.
pub open spec fn sizes(chunks: Seq<Seq<u8>>) -> Seq<nat> {
    Seq::new(chunks.len(), |i: int| chunks[i].len())
}

impl AnyDevice {
    /// What the host gets of the answer at a time.
    pub open spec fn answer(self, time: nat) -> Seq<u8> {
        let bytes = (self.answers)(time);
        if bytes.len() <= self.room {
            bytes
        } else {
            bytes.take(self.room as int)
        }
    }

    /// The beginning of an upload.
    pub open spec fn beginning(self, start: UploadStart) -> Gathering {
        Gathering {
            time: 0,
            action: Ok(start.begun(self.room)),
            chunks: Seq::empty(),
            stored: Seq::empty(),
            reports: Seq::empty(),
            history: Seq::empty(),
        }
    }

    /// The upload one step later, unless it is over or has failed.
    pub open spec fn later(self, now: Gathering) -> Option<Gathering> {
        let answer = if now.action matches Ok(UploadView::Read(_, _)) {
            self.answer(now.time)
        } else {
            Seq::empty()
        };
        let history = now.history.push(Event { act: wire::act(now.action), answer });
        let same = Gathering { time: now.time + 1, history, ..now };
        match now.action {
            Err(_) => None,
            Ok(UploadView::Read(request, next)) => {
                let bytes = answer;
                let action = next.answered(bytes, self.room);
                let chunks = if request.request == 2 {
                    now.chunks.push(bytes)
                } else {
                    now.chunks
                };
                Some(Gathering { action, chunks, ..same })
            },
            Ok(UploadView::ClearStatus(_, next)) => {
                let action = Ok(next.taken(self.room));
                Some(Gathering { action, ..same })
            },
            Ok(UploadView::SetAddress(_, next)) => {
                let action = Ok(next.taken(self.room));
                Some(Gathering { action, ..same })
            },
            Ok(UploadView::Sleep(_, next)) => {
                let action = Ok(next.awake(self.room));
                Some(Gathering { action, ..same })
            },
            Ok(UploadView::Store(data, next)) => {
                let action = Ok(next.written());
                Some(Gathering { action, stored: now.stored + data, ..same })
            },
            Ok(UploadView::Progress(n, next)) => {
                let action = next.counted(self.room);
                Some(Gathering { action, reports: now.reports.push(n as nat), ..same })
            },
            Ok(UploadView::Done) => None,
        }
    }

    /// The upload after so many steps, if it is not over before.
    pub open spec fn after(self, start: UploadStart, steps: nat) -> Option<Gathering>
        decreases steps,
    {
        if steps == 0 {
            Some(self.beginning(start))
        } else {
            match self.after(start, (steps - 1) as nat) {
                Some(now) => self.later(now),
                None => None,
            }
        }
    }
}

impl Gathering {
    /// What has been stored is the chunks, one after the other, and what has been reported is
    /// their sizes, in order; save that the last chunk is still to be stored, and its size still
    /// to be reported, where this comes next.
    pub open spec fn faithful(self) -> bool {
        let earlier = self.chunks.drop_last();
        match self.action {
            Ok(UploadView::Store(data, _)) => {
                &&& self.chunks.len() > 0
                &&& data == self.chunks.last()
                &&& self.stored == joined(earlier)
                &&& self.reports == sizes(earlier)
            },
            Ok(UploadView::Progress(n, _)) => {
                &&& self.chunks.len() > 0
                &&& n == self.chunks.last().len()
                &&& self.stored == joined(self.chunks)
                &&& self.reports == sizes(earlier)
            },
            _ => {
                &&& self.stored == joined(self.chunks)
                &&& self.reports == sizes(self.chunks)
            },
        }
    }

    /// Firmware is asked for where a chunk is taken in, a chunk is taken in for what it is, and
    /// its size is what goes on to the report.
    spec fn consistent(self) -> bool {
        match self.action {
            Ok(UploadView::Read(request, next)) => request.request == 2
                <==> next is Chunk,
            Ok(UploadView::Store(data, next)) => next.n == data.len(),
            _ => true,
        }
    }
}

proof fn lemma_stays_faithful(device: AnyDevice, now: Gathering)
    requires
        device.room <= usize::MAX,
        now.faithful(),
        now.consistent(),
        device.later(now) is Some,
    ensures
        device.later(now)->0.faithful(),
        device.later(now)->0.consistent(),
{
    let then = device.later(now)->0;
    match now.action {
        Ok(UploadView::Read(request, next)) => {
            if next is Chunk {
                assert(then.chunks.drop_last() =~= now.chunks);
            }
        },
        Ok(UploadView::Progress(_, _)) => {
            assert(then.reports =~= sizes(now.chunks));
        },
        _ => {},
    }
}

proof fn lemma_faithful(device: AnyDevice, start: UploadStart, steps: nat)
    requires
        device.room <= usize::MAX,
    ensures
        device.after(start, steps) matches Some(now) ==> now.faithful() && now.consistent(),
    decreases steps,
{
    if steps == 0 {
        assert(sizes(Seq::empty()) =~= Seq::empty());
    } else {
        lemma_faithful(device, start, (steps - 1) as nat);
        if let Some(now) = device.after(start, (steps - 1) as nat) {
            if device.later(now) is Some {
                lemma_stays_faithful(device, now);
            }
        }
    }
}

/// Whatever the device answers, at every time of an upload what has been stored is what the device
/// has answered to the requests for firmware, one answer after the other and nothing else, and
/// what has been reported is the sizes of these answers, in order. An answer is stored before the
/// next thing is asked for, and then its size is reported; so when the upload is over, or has
/// failed, nothing of what was answered is missing.
pub proof fn law_upload_gathers(device: AnyDevice, start: UploadStart, steps: nat)
    requires
        device.room <= usize::MAX,
    ensures
        device.after(start, steps) matches Some(now) ==> {
            &&& now.faithful()
            &&& now.action is Err || now.action == Ok::<UploadView, Error>(UploadView::Done) ==> {
                &&& now.stored == joined(now.chunks)
                &&& now.reports == sizes(now.chunks)
            }
        },
{
    lemma_faithful(device, start, steps);
}

} // verus!
