//! What passes between the host, the source and the device in a download, step by step, whatever
//! the device answers and the commands of the caller send.
//!
//! Everything is said in terms of what was done so far and what came of it, and of the numbers of
//! the USB DFU class.

use crate::control::UsbWriteControl;
use crate::download_session::{
    DownloadFill, DownloadReply, DownloadSent, DownloadStep, DownloadView,
};
use crate::error::Error;
use crate::feed;
use crate::feed::{Moment, World};
use crate::get_status::{GetStatusMessage, WaitState};
use crate::sans_io::DfuSansIo;
use crate::wire;
use vstd::prelude::*;

verus! {

/// Something that the host does.
pub enum Deed<S, L, K, D> {
    /// The source is read from.
    Fill,
    /// The command chain of a download of so many bytes is asked for.
    Prepare(DfuSansIo, u32),
    /// A control transfer from the device, with room for so many bytes.
    Read { request_type: u8, request: u8, value: u16, length: nat },
    /// A control transfer to the device that is not one of a command.
    Clear { request_type: u8, request: u8, value: u16, data: Seq<u8> },
    /// The command is asked for the loop that it turns into.
    Start(S, GetStatusMessage),
    /// The loop is asked for its next step.
    Next(L),
    /// The command is handed a chunk.
    Chunk(K, Seq<u8>),
    /// A control transfer of a command to the device.
    Write(UsbWriteControl<D>),
    /// So many bytes are reported as progress.
    Report(int),
    /// A pause of so many milliseconds.
    Sleep(int),
    /// The device is reset, and nothing more.
    Reset,
    /// Nothing more.
    Break,
    /// Nothing more, for this reason.
    Fail(Error),
}

/// Something that the host has done.
pub struct Happening<S, L, K, D> {
    pub deed: Deed<S, L, K, D>,
    /// What the source has given or the device has answered.
    pub bytes: Seq<u8>,
    /// The number of bytes that the device has taken.
    pub count: nat,
}

/// What a download does next, as it is seen from outside.
pub open spec fn deed<S, L, K, D>(action: Result<DownloadView<S, L, K, D>, Error>) -> Deed<
    S,
    L,
    K,
    D,
> {
    match action {
        Err(e) => Deed::Fail(e),
        Ok(DownloadView::Fill(_)) => Deed::Fill,
        Ok(DownloadView::Prepare(dfu, length, _)) => Deed::Prepare(dfu, length),
        Ok(DownloadView::Read(request, _)) => Deed::Read {
            request_type: request.request_type,
            request: request.request,
            value: request.value,
            length: request.length,
        },
        Ok(DownloadView::ClearStatus(control, _)) => Deed::Clear {
            request_type: control.request_type,
            request: control.request,
            value: control.value,
            data: control.data@,
        },
        Ok(DownloadView::Start(cmd, message, _)) => Deed::Start(cmd, message),
        Ok(DownloadView::Next(download_loop, _)) => Deed::Next(download_loop),
        Ok(DownloadView::Chunk(cmd, data, _)) => Deed::Chunk(cmd, data),
        Ok(DownloadView::Write(control, _)) => Deed::Write(control),
        Ok(DownloadView::Progress(n, _)) => Deed::Report(n as int),
        Ok(DownloadView::Sleep(poll_timeout, _)) => Deed::Sleep(poll_timeout as int),
        Ok(DownloadView::UsbReset) => Deed::Reset,
        Ok(DownloadView::Break) => Deed::Break,
    }
}

/// The status is asked for, by a host that has `room` bytes.
pub open spec fn asks_status<S, L, K, D>(room: nat) -> Deed<S, L, K, D> {
    Deed::Read {
        request_type: 0xa1,
        request: 3,
        value: 0,
        length: if room < 6 {
            room
        } else {
            6
        },
    }
}

/// The number of bytes that the source has given.
pub open spec fn gave<S, L, K, D>(history: Seq<Happening<S, L, K, D>>) -> nat
    decreases history.len(),
{
    if history.len() == 0 {
        0
    } else {
        gave(history.drop_last()) + if history.last().deed is Fill {
            history.last().bytes.len()
        } else {
            0
        }
    }
}

/// The last control transfer to the device was a chunk.
pub open spec fn sent_chunk<S, L, K, D>(history: Seq<Happening<S, L, K, D>>) -> bool {
    &&& history.len() > 1
    &&& history.last().deed is Write
    &&& history[history.len() - 2].deed is Chunk
}

/// The number of bytes that the device has taken of the chunks.
pub open spec fn took<S, L, K, D>(history: Seq<Happening<S, L, K, D>>) -> nat
    decreases history.len(),
{
    if history.len() == 0 {
        0
    } else {
        took(history.drop_last()) + if sent_chunk(history) {
            history.last().count
        } else {
            0
        }
    }
}

/// The command chain was asked for.
pub open spec fn prepared<S, L, K, D>(history: Seq<Happening<S, L, K, D>>) -> bool
    decreases history.len(),
{
    history.len() > 0 && (history.last().deed is Prepare || prepared(history.drop_last()))
}

impl<S, L, K, D> World<S, L, K, D> {
    /// The command that the loop has given last for a chunk.
    pub open spec fn chunk_command(self, history: Seq<Happening<S, L, K, D>>) -> Option<K>
        decreases history.len(),
    {
        if history.len() == 0 {
            None
        } else {
            match history.last().deed {
                Deed::Next(download_loop) => match (self.next)(download_loop) {
                    DownloadStep::DownloadChunk(cmd) => Some(cmd),
                    _ => None,
                },
                _ => self.chunk_command(history.drop_last()),
            }
        }
    }

    /// What the last control transfer of a command waits for.
    pub open spec fn awaited(self, history: Seq<Happening<S, L, K, D>>) -> Option<WaitState<L>>
        decreases history.len(),
    {
        if history.len() == 0 {
            None
        } else {
            match history.last().deed {
                Deed::Next(download_loop) => match (self.next)(download_loop) {
                    DownloadStep::Erase(wait, _) => Some(wait),
                    DownloadStep::SetAddress(wait, _) => Some(wait),
                    _ => None,
                },
                Deed::Chunk(cmd, data) => Some((self.chunk)(cmd, data).0),
                _ => self.awaited(history.drop_last()),
            }
        }
    }

    /// What was read from the source and not taken by the device.
    pub open spec fn at_hand(self, history: Seq<Happening<S, L, K, D>>) -> Seq<u8> {
        self.source.subrange(took(history) as int, gave(history) as int)
    }

    /// `next` is right when a wait begins: a pause, unless the wait is over before it begins.
    pub open spec fn starts_waiting(
        self,
        history: Seq<Happening<S, L, K, D>>,
        next: Deed<S, L, K, D>,
    ) -> bool {
        &&& self.awaited(history) matches Some(wait)
        &&& if wait.end {
            next == Deed::<S, L, K, D>::Next(wait.chained_command)
        } else {
            next == Deed::<S, L, K, D>::Sleep(wait.poll_timeout as int)
        }
    }

    /// `next` is right when there is as much at hand as fits, or all that the source had.
    pub open spec fn uses(
        self,
        dfu: DfuSansIo,
        length: u32,
        history: Seq<Happening<S, L, K, D>>,
        next: Deed<S, L, K, D>,
    ) -> bool {
        if prepared(history) {
            &&& self.chunk_command(history) matches Some(cmd)
            &&& next == Deed::<S, L, K, D>::Chunk(cmd, self.at_hand(history))
        } else if gave(history) == 0 {
            next is Break
        } else {
            next == Deed::<S, L, K, D>::Prepare(dfu, length)
        }
    }

    /// `next` is right when something is needed from the source: it is read from, unless there is
    /// as much at hand as fits.
    pub open spec fn fills(
        self,
        dfu: DfuSansIo,
        length: u32,
        history: Seq<Happening<S, L, K, D>>,
        next: Deed<S, L, K, D>,
    ) -> bool {
        if gave(history) - took(history) < self.capacity {
            next is Fill
        } else {
            self.uses(dfu, length, history, next)
        }
    }

    /// `next` is right after the device has answered with `status` to the last request.
    pub open spec fn follows_status(
        self,
        dfu: DfuSansIo,
        length: u32,
        history: Seq<Happening<S, L, K, D>>,
        status: Seq<u8>,
        next: Deed<S, L, K, D>,
    ) -> bool {
        let code = status[4];
        let before = history[history.len() - 2].deed;
        if status.len() < 6 {
            next == Deed::<S, L, K, D>::Fail(
                Error::ResponseTooShort { got: status.len() as usize, expected: 6 },
            )
        } else if code > 10 {
            next == Deed::<S, L, K, D>::Fail(Error::UnrecognizedStateCode(code))
        } else if before is Prepare {
            if code == 10 {
                &&& next matches Deed::Clear { request_type, request, value, data }
                &&& request_type == 0x21
                &&& request == 4
                &&& value == 0
                &&& data.len() == 0
            } else {
                next == asks_status::<S, L, K, D>(self.room)
            }
        } else if before is Sleep {
            let reported = wire::state_of(code);
            &&& self.awaited(history) matches Some(wait)
            &&& if reported == wait.state {
                next == Deed::<S, L, K, D>::Next(wait.chained_command)
            } else if reported == wait.intermediate {
                next == Deed::<S, L, K, D>::Sleep(wire::timeout(status))
            } else {
                next == Deed::<S, L, K, D>::Fail(
                    Error::InvalidState { got: reported, expected: wait.state },
                )
            }
        } else {
            let command = (self.command)(dfu, length).chained_command.chained_command;
            &&& next matches Deed::Start(cmd, message)
            &&& cmd == command.chained_command
            &&& message.status == status[0]
            &&& message.poll_timeout == wire::timeout(status)
            &&& message.state == wire::state_of(code)
            &&& message.index == status[5]
        }
    }

    /// `next` is right after all this.
    pub open spec fn follows(
        self,
        dfu: DfuSansIo,
        length: u32,
        history: Seq<Happening<S, L, K, D>>,
        next: Deed<S, L, K, D>,
    ) -> bool {
        if history.len() == 0 {
            self.fills(dfu, length, history, next)
        } else {
            let last = history.last();
            match last.deed {
                Deed::Fill => if last.bytes.len() > 0 {
                    self.fills(dfu, length, history, next)
                } else {
                    self.uses(dfu, length, history, next)
                },
                Deed::Prepare(_, _) => next == asks_status::<S, L, K, D>(self.room),
                Deed::Read { .. } => self.follows_status(dfu, length, history, last.bytes, next),
                Deed::Clear { .. } => next == asks_status::<S, L, K, D>(self.room),
                Deed::Start(cmd, message) => next == Deed::<S, L, K, D>::Next(
                    (self.start)(cmd, message),
                ),
                Deed::Next(download_loop) => match (self.next)(download_loop) {
                    DownloadStep::Break => next is Break,
                    DownloadStep::Erase(_, control) => next == Deed::<S, L, K, D>::Write(control),
                    DownloadStep::SetAddress(_, control) => next == Deed::<S, L, K, D>::Write(
                        control,
                    ),
                    DownloadStep::DownloadChunk(_) => self.fills(dfu, length, history, next),
                    DownloadStep::UsbReset => next is Reset,
                },
                Deed::Chunk(cmd, data) => next == Deed::<S, L, K, D>::Write(
                    (self.chunk)(cmd, data).1,
                ),
                Deed::Write(_) => if sent_chunk(history) {
                    next == Deed::<S, L, K, D>::Report(last.count as int)
                } else {
                    self.starts_waiting(history, next)
                },
                Deed::Report(_) => self.starts_waiting(history, next),
                Deed::Sleep(_) => next == asks_status::<S, L, K, D>(self.room),
                Deed::Reset => false,
                Deed::Break => false,
                Deed::Fail(_) => false,
            }
        }
    }

    /// The device has not reported yet what the last control transfer of a command waits for.
    pub open spec fn pending(self, history: Seq<Happening<S, L, K, D>>) -> bool
        decreases history.len(),
    {
        if history.len() == 0 {
            false
        } else {
            let last = history.last();
            match (last.deed, self.awaited(history)) {
                (Deed::Write(_), Some(wait)) => !wait.end,
                (Deed::Read { .. }, Some(wait)) => self.pending(history.drop_last()) && !(
                last.bytes.len() >= 6 && last.bytes[4] <= 10 && wire::state_of(last.bytes[4])
                    == wait.state),
                _ => self.pending(history.drop_last()),
            }
        }
    }

    /// As long as the device has not reported it, it is waited for.
    spec fn patient(self, now: Moment<S, L, K, D>) -> bool {
        self.pending(now.history) ==> {
            &&& self.awaited(now.history) matches Some(wait) && !wait.end
            &&& match now.action {
                Ok(DownloadView::Progress(_, _)) => true,
                Ok(DownloadView::Sleep(_, _)) => true,
                Ok(DownloadView::Read(request, DownloadReply::Poll(_))) => true,
                Err(_) => true,
                _ => false,
            }
        }
    }

    /// The wait is the one that is due, as far as it has got.
    spec fn waits(self, wait: WaitState<L>, history: Seq<Happening<S, L, K, D>>) -> bool {
        &&& !wait.end
        &&& self.awaited(history) matches Some(due)
        &&& wait.state == due.state
        &&& wait.intermediate == due.intermediate
        &&& wait.chained_command == due.chained_command
    }

    /// What takes the outcome in knows what has passed.
    spec fn up_to_date(self, dfu: DfuSansIo, length: u32, now: Moment<S, L, K, D>) -> bool {
        let history = now.history;
        let start = (self.command)(dfu, length).chained_command.chained_command.chained_command;
        &&& now.taken.len() == took(history)
        &&& now.read == gave(history)
        &&& match now.action {
            Err(_) => true,
            Ok(DownloadView::Fill(fill)) => match fill {
                DownloadFill::First(_, _) => !prepared(history) && took(history) == 0,
                DownloadFill::Chunk(cmd) => prepared(history) && self.chunk_command(history)
                    == Some(cmd),
            },
            Ok(DownloadView::Prepare(_, _, _)) => true,
            Ok(DownloadView::Break) => true,
            Ok(DownloadView::UsbReset) => true,
            other => {
                &&& prepared(history)
                &&& history.len() > 0
                &&& match other->Ok_0 {
                    DownloadView::Read(_, DownloadReply::Status(recv)) => {
                        &&& history.last().deed is Prepare
                        &&& recv.chained_command.chained_command.chained_command == start
                    },
                    DownloadView::Read(_, DownloadReply::Ready(recv)) => {
                        &&& history.last().deed !is Prepare
                        &&& history.last().deed !is Sleep
                        &&& recv.chained_command == start
                    },
                    DownloadView::Read(_, DownloadReply::Poll(recv)) => {
                        &&& history.last().deed is Sleep
                        &&& self.waits(recv.chained_command, history)
                    },
                    DownloadView::ClearStatus(_, next) => next.command.chained_command == start,
                    DownloadView::Write(_, DownloadSent::Command(wait)) => {
                        &&& history.last().deed !is Chunk
                        &&& self.awaited(history) == Some(wait)
                    },
                    DownloadView::Write(_, DownloadSent::Chunk(wait)) => {
                        &&& history.last().deed is Chunk
                        &&& self.awaited(history) == Some(wait)
                    },
                    DownloadView::Progress(_, next) => self.awaited(history) == Some(next.wait),
                    DownloadView::Sleep(_, next) => self.waits(
                        next.command.chained_command,
                        history,
                    ),
                    _ => true,
                }
            },
        }
    }
}

/// One step of a download that knows what has passed.
proof fn lemma_step<S, L, K, D>(
    world: World<S, L, K, D>,
    dfu: DfuSansIo,
    length: u32,
    now: Moment<S, L, K, D>,
)
    requires
        world.capacity <= 0xffff,
        world.room <= usize::MAX,
        world.orderly(dfu, length, now),
        world.up_to_date(dfu, length, now),
        world.later(now) is Some,
        world.orderly(dfu, length, world.later(now)->0),
    ensures
        ({
            let then = world.later(now)->0;
            &&& world.follows(dfu, length, then.history, deed(then.action))
            &&& world.up_to_date(dfu, length, then)
        }),
{
    let then = world.later(now)->0;
    let history = then.history;
    assert(history.drop_last() =~= now.history);
    assert(history.last().deed == deed(now.action));
    if now.history.len() > 0 {
        assert(history[history.len() - 2] == now.history.last());
    }
}

proof fn lemma_stays_patient<S, L, K, D>(
    world: World<S, L, K, D>,
    dfu: DfuSansIo,
    length: u32,
    now: Moment<S, L, K, D>,
)
    requires
        world.capacity <= 0xffff,
        world.room <= usize::MAX,
        world.orderly(dfu, length, now),
        world.up_to_date(dfu, length, now),
        world.patient(now),
        world.later(now) is Some,
    ensures
        world.patient(world.later(now)->0),
{
    let then = world.later(now)->0;
    assert(then.history.drop_last() =~= now.history);
}

proof fn lemma_wire<S, L, K, D>(
    world: World<S, L, K, D>,
    dfu: DfuSansIo,
    length: u32,
    steps: nat,
)
    requires
        world.capacity <= 0xffff,
        world.room <= usize::MAX,
    ensures
        world.after(dfu, length, steps) matches Some(now) ==> {
            &&& world.follows(dfu, length, now.history, deed(now.action))
            &&& world.up_to_date(dfu, length, now)
            &&& world.patient(now)
        },
    decreases steps,
{
    feed::law_download_follows_source(world, dfu, length, steps);
    if steps > 0 {
        lemma_wire(world, dfu, length, (steps - 1) as nat);
        feed::law_download_follows_source(world, dfu, length, (steps - 1) as nat);
        if let Some(now) = world.after(dfu, length, (steps - 1) as nat) {
            if world.later(now) is Some {
                lemma_step(world, dfu, length, now);
                lemma_stays_patient(world, dfu, length, now);
            }
        }
    }
}

/// Whatever the source gives, the device answers and takes, and the commands of the caller send,
/// each thing that a download does is the right one after all that was done before it: when the
/// source is read from, which status is asked for and cleared, what the commands are handed and
/// that what they send is sent, how long is waited for the device and for which of its answers
/// the download goes on or fails, what is reported, and when the download is over or the device
/// is reset.
pub proof fn law_download_on_the_wire<S, L, K, D>(
    world: World<S, L, K, D>,
    dfu: DfuSansIo,
    length: u32,
    steps: nat,
)
    requires
        world.capacity <= 0xffff,
        world.room <= usize::MAX,
    ensures
        world.after(dfu, length, steps) matches Some(now) ==> world.follows(
            dfu,
            length,
            now.history,
            deed(now.action),
        ),
{
    lemma_wire(world, dfu, length, steps);
}

/// From the moment that a command or a chunk was sent until the device has reported the state that
/// is waited for after it, a download does nothing but report the progress, pause, and ask for the
/// status; or it fails. So the loop is asked for its next step only after the device has reported
/// that state, for every wait that was not over before it began.
pub proof fn law_download_waits<S, L, K, D>(
    world: World<S, L, K, D>,
    dfu: DfuSansIo,
    length: u32,
    steps: nat,
)
    requires
        world.capacity <= 0xffff,
        world.room <= usize::MAX,
    ensures
        world.after(dfu, length, steps) matches Some(now) ==> (world.pending(now.history) ==> {
            let next = deed(now.action);
            ||| next is Report
            ||| next is Sleep
            ||| next == asks_status::<S, L, K, D>(world.room)
            ||| next is Fail
        }),
{
    lemma_wire(world, dfu, length, steps);
}

} // verus!
