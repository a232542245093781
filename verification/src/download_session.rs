//! The order of events of a download: what the host does next, and what it makes of the outcome.
//!
//! The commands of the download protocol belong to the caller: `S` is the command that starts a
//! download, `L` the loop that it turns into, `K` the command that takes the next chunk and `D`
//! the payload of what the commands send. The session hands each of them what it works on.

use crate::buffer::Buffer;
use crate::control::{ReadRequest, UsbReadControl, UsbWriteControl};
use crate::error::Error;
use crate::get_status;
use crate::get_status::{ClearStatus, GetStatus, GetStatusMessage, GetStatusRecv, Step, WaitState};
use crate::sans_io::DfuSansIo;
use crate::synchronous;
use crate::synchronous::wait_for_state;
use vstd::prelude::*;

verus! {

/// What a download does next. Each variant holds what takes the outcome in.
pub enum DownloadAction<'buf, S, L, K, D> {
    /// Read once from the source, as many bytes as there is room for in the buffer.
    Fill(DownloadFill<K>),
    /// Ask for the protocol of the device and create the command chain of a download of so many
    /// bytes over it, for the device and to the address that the [`DfuSansIo`] gives.
    Prepare(DfuSansIo, u32, DownloadPrepare),
    /// Make the control transfer from the device.
    Read(UsbReadControl<'buf>, DownloadReply<S, L>),
    /// Make the control transfer to the device that clears its status.
    ClearStatus(UsbWriteControl<[u8; 0]>, DownloadCleared<S>),
    /// Hand the status to the command that starts the download.
    Start(S, GetStatusMessage, DownloadStart),
    /// Get the next step of the download loop.
    Next(L, DownloadNext),
    /// Hand the chunk to the command that downloads it.
    Chunk(K, &'buf [u8], DownloadChunk),
    /// Make the control transfer to the device.
    Write(UsbWriteControl<D>, DownloadSent<L>),
    /// Report so many bytes as progress.
    Progress(usize, DownloadReported<L>),
    /// Sleep for so many milliseconds.
    Sleep(u64, DownloadSlept<L>),
    /// Reset the USB device. The download is over and the device has left the bus.
    UsbReset,
    /// The download is over and the device has stayed on the bus.
    Break,
}

/// What the buffer is filled for.
#[must_use]
pub enum DownloadFill<K> {
    /// To see whether there is anything to download. So many bytes are announced.
    First(DfuSansIo, u32),
    /// To have the next chunk for the command.
    Chunk(K),
}

/// Goes on when the command chain is there.
#[must_use]
pub struct DownloadPrepare;

/// Takes in the answer of the device.
#[must_use]
pub enum DownloadReply<S, L> {
    /// The first status.
    Status(GetStatusRecv<ClearStatus<GetStatus<S>>>),
    /// The status that decides whether the download can start.
    Ready(GetStatusRecv<S>),
    /// The status while the device handles a command.
    Poll(GetStatusRecv<WaitState<L>>),
}

/// Goes on when the status was cleared.
#[must_use]
pub struct DownloadCleared<S> {
    pub command: GetStatus<S>,
}

/// Goes on when the download has started.
#[must_use]
pub struct DownloadStart;

/// Goes on with a step of the download loop.
#[must_use]
pub struct DownloadNext;

/// Step of a download loop, with what the commands of the loop send and wait for.
pub enum DownloadStep<L, K, D> {
    Break,
    Erase(WaitState<L>, UsbWriteControl<D>),
    SetAddress(WaitState<L>, UsbWriteControl<D>),
    DownloadChunk(K),
    UsbReset,
}

/// Goes on when the command has taken its chunk.
#[must_use]
pub struct DownloadChunk;

/// Goes on when the device has taken a control transfer.
#[must_use]
pub enum DownloadSent<L> {
    /// A command.
    Command(WaitState<L>),
    /// A chunk of firmware.
    Chunk(WaitState<L>),
}

/// Goes on when progress was reported.
#[must_use]
pub struct DownloadReported<L> {
    pub wait: WaitState<L>,
}

/// Goes on after a sleep.
#[must_use]
pub struct DownloadSlept<L> {
    pub command: GetStatus<WaitState<L>>,
}

/// A [`DownloadAction`], with the request in place of the buffer that the device fills.
pub enum DownloadView<S, L, K, D> {
    Fill(DownloadFill<K>),
    Prepare(DfuSansIo, u32, DownloadPrepare),
    Read(ReadRequest, DownloadReply<S, L>),
    ClearStatus(UsbWriteControl<[u8; 0]>, DownloadCleared<S>),
    Start(S, GetStatusMessage, DownloadStart),
    Next(L, DownloadNext),
    Chunk(K, Seq<u8>, DownloadChunk),
    Write(UsbWriteControl<D>, DownloadSent<L>),
    Progress(usize, DownloadReported<L>),
    Sleep(u64, DownloadSlept<L>),
    UsbReset,
    Break,
}

impl<'buf, S, L, K, D> View for DownloadAction<'buf, S, L, K, D> {
    type V = DownloadView<S, L, K, D>;

    open spec fn view(&self) -> DownloadView<S, L, K, D> {
        match *self {
            DownloadAction::Fill(next) => DownloadView::Fill(next),
            DownloadAction::Prepare(dfu, length, next) => DownloadView::Prepare(dfu, length, next),
            DownloadAction::Read(control, next) => DownloadView::Read(control@, next),
            DownloadAction::ClearStatus(control, next) => DownloadView::ClearStatus(control, next),
            DownloadAction::Start(cmd, message, next) => DownloadView::Start(cmd, message, next),
            DownloadAction::Next(download_loop, next) => DownloadView::Next(download_loop, next),
            DownloadAction::Chunk(cmd, data, next) => DownloadView::Chunk(cmd, data@, next),
            DownloadAction::Write(control, next) => DownloadView::Write(control, next),
            DownloadAction::Progress(n, next) => DownloadView::Progress(n, next),
            DownloadAction::Sleep(poll_timeout, next) => DownloadView::Sleep(poll_timeout, next),
            DownloadAction::UsbReset => DownloadView::UsbReset,
            DownloadAction::Break => DownloadView::Break,
        }
    }
}

/// What comes after a step of the wait for the device.
pub open spec fn after_wait<S, L, K, D>(step: Step<L>) -> DownloadView<S, L, K, D> {
    match step {
        Step::Break(download_loop) => DownloadView::Next(download_loop, DownloadNext),
        Step::Wait(command, poll_timeout) => DownloadView::Sleep(
            poll_timeout,
            DownloadSlept { command },
        ),
    }
}

fn wait_action<'buf, S, L, K, D>(step: Step<L>) -> (r: DownloadAction<'buf, S, L, K, D>)
    ensures
        r@ == after_wait::<S, L, K, D>(step),
{
    match step {
        Step::Break(download_loop) => DownloadAction::Next(download_loop, DownloadNext),
        Step::Wait(command, poll_timeout) => DownloadAction::Sleep(
            poll_timeout,
            DownloadSlept { command },
        ),
    }
}

impl<K> DownloadFill<K> {
    /// What comes after the buffer has been filled, with `data` in it. A source that has nothing
    /// at the very beginning ends the download before anything is sent.
    pub open spec fn filled_up<S, L, D>(self, data: Seq<u8>) -> DownloadView<S, L, K, D> {
        match self {
            DownloadFill::First(dfu, length) => if data.len() == 0 {
                DownloadView::Break
            } else {
                DownloadView::Prepare(dfu, length, DownloadPrepare)
            },
            DownloadFill::Chunk(cmd) => DownloadView::Chunk(cmd, data, DownloadChunk),
        }
    }

    fn full<'buf, S, L, D>(self, reader: &'buf mut Buffer) -> (r: DownloadAction<'buf, S, L, K, D>)
        ensures
            r@ == self.filled_up::<S, L, D>(old(reader).data()),
            *final(reader) == *old(reader),
    {
        match self {
            DownloadFill::First(dfu, length) => if reader.bytes().len() == 0 {
                DownloadAction::Break
            } else {
                DownloadAction::Prepare(dfu, length, DownloadPrepare)
            },
            DownloadFill::Chunk(cmd) => DownloadAction::Chunk(cmd, reader.bytes(), DownloadChunk),
        }
    }

    /// What filling the buffer begins with: nothing is read if it is full.
    pub open spec fn due<S, L, D>(self, data: Seq<u8>, capacity: nat) -> DownloadView<S, L, K, D> {
        if data.len() < capacity {
            DownloadView::Fill(self)
        } else {
            self.filled_up(data)
        }
    }

    /// Begins to fill the buffer.
    pub fn begin<'buf, S, L, D>(self, reader: &'buf mut Buffer) -> (r: DownloadAction<
        'buf,
        S,
        L,
        K,
        D,
    >)
        ensures
            r@ == self.due::<S, L, D>(old(reader).data(), old(reader).capacity()),
            *final(reader) == *old(reader),
    {
        if reader.room() > 0 {
            DownloadAction::Fill(self)
        } else {
            self.full(reader)
        }
    }

    /// What comes after a read that has given `n` bytes, the last of `data`.
    pub open spec fn went_on<S, L, D>(
        self,
        data: Seq<u8>,
        capacity: nat,
        n: nat,
    ) -> DownloadView<S, L, K, D> {
        if n > 0 && data.len() < capacity {
            DownloadView::Fill(self)
        } else {
            self.filled_up(data)
        }
    }

    /// Takes in what the source has given.
    pub fn filled<'buf, S, L, D>(
        self,
        reader: &'buf mut Buffer,
        read: &[u8],
    ) -> (r: DownloadAction<'buf, S, L, K, D>)
        requires
            old(reader).data().len() + read@.len() <= old(reader).capacity(),
        ensures
            final(reader).capacity() == old(reader).capacity(),
            final(reader).data() == old(reader).data() + read@,
            r@ == self.went_on::<S, L, D>(
                old(reader).data() + read@,
                old(reader).capacity(),
                read@.len(),
            ),
    {
        if reader.fill_buf(read) {
            DownloadAction::Fill(self)
        } else {
            self.full(reader)
        }
    }
}

impl DownloadPrepare {
    /// What comes after the command chain is there: the status is asked for.
    pub open spec fn begun<S, L, K, D>(
        self,
        command: GetStatus<ClearStatus<GetStatus<S>>>,
        room: nat,
    ) -> DownloadView<S, L, K, D> {
        DownloadView::Read(
            get_status::status_request(room),
            DownloadReply::Status(GetStatusRecv { chained_command: command.chained_command }),
        )
    }

    /// Takes in the command chain. Answers of the device are to be placed in `buffer`.
    pub fn prepared<'buf, S, L, K, D>(
        self,
        command: GetStatus<ClearStatus<GetStatus<S>>>,
        buffer: &'buf mut [u8],
    ) -> (r: DownloadAction<'buf, S, L, K, D>)
        ensures
            r@ == self.begun::<S, L, K, D>(command, old(buffer)@.len()),
            r matches DownloadAction::Read(control, _) ==> {
                let n = control.buffer@.len() as int;
                &&& control.buffer@ == old(buffer)@.take(n)
                &&& final(buffer)@ == final(control.buffer)@ + old(buffer)@.skip(n)
            },
    {
        let (recv, control) = command.get_status(buffer);
        DownloadAction::Read(control, DownloadReply::Status(recv))
    }
}

impl<S, L> DownloadReply<S, L> {
    /// What comes after the device has answered with `bytes`.
    pub open spec fn answered<K, D>(self, bytes: Seq<u8>, room: nat) -> Result<
        DownloadView<S, L, K, D>,
        Error,
    > {
        match self {
            DownloadReply::Status(recv) => match recv.chained(bytes) {
                Err(e) => Err(e),
                Ok((command, None)) => Ok(
                    DownloadView::Read(
                        get_status::status_request(room),
                        DownloadReply::Ready(
                            GetStatusRecv { chained_command: command.chained_command },
                        ),
                    ),
                ),
                Ok((command, Some(control))) => Ok(
                    DownloadView::ClearStatus(control, DownloadCleared { command }),
                ),
            },
            DownloadReply::Ready(recv) => match get_status::decoded(bytes) {
                Err(e) => Err(e),
                Ok(message) => Ok(
                    DownloadView::Start(recv.chained_command, message, DownloadStart),
                ),
            },
            DownloadReply::Poll(recv) => match synchronous::waited(recv, bytes) {
                Err(e) => Err(e),
                Ok(step) => Ok(after_wait(step)),
            },
        }
    }

    /// Takes in the answer: the first `n` bytes of `buffer`.
    pub fn received<'buf, K, D>(self, buffer: &'buf mut [u8], n: usize) -> (r: Result<
        DownloadAction<'buf, S, L, K, D>,
        Error,
    >)
        requires
            n <= old(buffer)@.len(),
        ensures
            match r {
                Err(e) => self.answered::<K, D>(old(buffer)@.take(n as int), old(buffer)@.len())
                    == Err::<DownloadView<S, L, K, D>, Error>(e),
                Ok(action) => self.answered::<K, D>(
                    old(buffer)@.take(n as int),
                    old(buffer)@.len(),
                ) == Ok::<DownloadView<S, L, K, D>, Error>(action@),
            },
            r matches Ok(DownloadAction::Read(control, _)) ==> {
                let len = control.buffer@.len() as int;
                &&& control.buffer@ == old(buffer)@.take(len)
                &&& final(buffer)@ == final(control.buffer)@ + old(buffer)@.skip(len)
            },
            !(r matches Ok(DownloadAction::Read(_, _))) ==> final(buffer)@ == old(buffer)@,
    {
        match self {
            DownloadReply::Status(recv) => match recv.chain(buffer.split_at(n).0) {
                Err(e) => Err(e),
                Ok((command, control)) => match control {
                    None => {
                        let (recv, control) = command.get_status(buffer);
                        Ok(DownloadAction::Read(control, DownloadReply::Ready(recv)))
                    },
                    Some(control) => Ok(
                        DownloadAction::ClearStatus(control, DownloadCleared { command }),
                    ),
                },
            },
            DownloadReply::Ready(recv) => match GetStatusMessage::decode(buffer.split_at(n).0) {
                Err(e) => Err(e),
                Ok(message) => Ok(
                    DownloadAction::Start(recv.chained_command, message, DownloadStart),
                ),
            },
            DownloadReply::Poll(recv) => match wait_for_state(recv, buffer.split_at(n).0) {
                Err(e) => Err(e),
                Ok(step) => Ok(wait_action(step)),
            },
        }
    }
}

impl<S> DownloadCleared<S> {
    /// What comes after the status was cleared: it is asked for again.
    pub open spec fn taken<L, K, D>(self, room: nat) -> DownloadView<S, L, K, D> {
        DownloadView::Read(
            get_status::status_request(room),
            DownloadReply::Ready(GetStatusRecv { chained_command: self.command.chained_command }),
        )
    }

    /// Goes on after the transfer.
    pub fn sent<'buf, L, K, D>(self, buffer: &'buf mut [u8]) -> (r: DownloadAction<
        'buf,
        S,
        L,
        K,
        D,
    >)
        ensures
            r@ == self.taken::<L, K, D>(old(buffer)@.len()),
            r matches DownloadAction::Read(control, _) ==> {
                let n = control.buffer@.len() as int;
                &&& control.buffer@ == old(buffer)@.take(n)
                &&& final(buffer)@ == final(control.buffer)@ + old(buffer)@.skip(n)
            },
    {
        let (recv, control) = self.command.get_status(buffer);
        DownloadAction::Read(control, DownloadReply::Ready(recv))
    }
}

impl DownloadStart {
    /// What comes after the command has turned into a loop: the first step of the loop.
    pub open spec fn begun<S, L, K, D>(self, download_loop: L) -> DownloadView<S, L, K, D> {
        DownloadView::Next(download_loop, DownloadNext)
    }

    /// Takes in the loop that the command has turned into.
    pub fn started<'buf, S, L, K, D>(self, download_loop: L) -> (r: DownloadAction<
        'buf,
        S,
        L,
        K,
        D,
    >)
        ensures
            r@ == self.begun::<S, L, K, D>(download_loop),
    {
        DownloadAction::Next(download_loop, DownloadNext)
    }
}

impl DownloadNext {
    /// What comes after the loop has told its step, when `data` is in the buffer.
    pub open spec fn stepped<S, L, K, D>(
        self,
        step: DownloadStep<L, K, D>,
        data: Seq<u8>,
        capacity: nat,
    ) -> DownloadView<S, L, K, D> {
        match step {
            DownloadStep::Break => DownloadView::Break,
            DownloadStep::Erase(wait, control) => DownloadView::Write(
                control,
                DownloadSent::Command(wait),
            ),
            DownloadStep::SetAddress(wait, control) => DownloadView::Write(
                control,
                DownloadSent::Command(wait),
            ),
            DownloadStep::DownloadChunk(cmd) => DownloadFill::Chunk(cmd).due(data, capacity),
            DownloadStep::UsbReset => DownloadView::UsbReset,
        }
    }

    /// Takes in the step of the loop.
    pub fn step<'buf, S, L, K, D>(
        self,
        step: DownloadStep<L, K, D>,
        reader: &'buf mut Buffer,
    ) -> (r: DownloadAction<'buf, S, L, K, D>)
        ensures
            r@ == self.stepped::<S, L, K, D>(step, old(reader).data(), old(reader).capacity()),
            *final(reader) == *old(reader),
    {
        match step {
            DownloadStep::Break => DownloadAction::Break,
            DownloadStep::Erase(wait, control) => DownloadAction::Write(
                control,
                DownloadSent::Command(wait),
            ),
            DownloadStep::SetAddress(wait, control) => DownloadAction::Write(
                control,
                DownloadSent::Command(wait),
            ),
            DownloadStep::DownloadChunk(cmd) => DownloadFill::Chunk(cmd).begin(reader),
            DownloadStep::UsbReset => DownloadAction::UsbReset,
        }
    }
}

impl DownloadChunk {
    /// What comes after the command has taken the chunk: it is sent.
    pub open spec fn handed_on<S, L, K, D>(
        self,
        wait: WaitState<L>,
        control: UsbWriteControl<D>,
    ) -> DownloadView<S, L, K, D> {
        DownloadView::Write(control, DownloadSent::Chunk(wait))
    }

    /// Takes in what the command that has taken the chunk sends and waits for.
    pub fn prepared<'buf, S, L, K, D>(
        self,
        wait: WaitState<L>,
        control: UsbWriteControl<D>,
    ) -> (r: DownloadAction<'buf, S, L, K, D>)
        ensures
            r@ == self.handed_on::<S, L, K, D>(wait, control),
    {
        DownloadAction::Write(control, DownloadSent::Chunk(wait))
    }
}

impl<L> DownloadSent<L> {
    /// What comes after the device has taken `n` bytes.
    pub open spec fn taken<S, K, D>(self, n: usize) -> DownloadView<S, L, K, D> {
        match self {
            DownloadSent::Command(wait) => after_wait(wait.due()),
            DownloadSent::Chunk(wait) => DownloadView::Progress(n, DownloadReported { wait }),
        }
    }

    /// What is left of `data` after the device has taken `n` bytes: a command takes nothing.
    pub open spec fn left(self, data: Seq<u8>, n: usize) -> Seq<u8> {
        if self is Command {
            data
        } else if n < data.len() {
            data.skip(n as int)
        } else {
            Seq::empty()
        }
    }

    /// Goes on after the transfer, of which the device has taken `n` bytes.
    pub fn sent<'buf, S, K, D>(self, reader: &mut Buffer, n: usize) -> (r: DownloadAction<
        'buf,
        S,
        L,
        K,
        D,
    >)
        ensures
            r@ == self.taken::<S, K, D>(n),
            final(reader).capacity() == old(reader).capacity(),
            final(reader).data() == self.left(old(reader).data(), n),
    {
        match self {
            DownloadSent::Command(wait) => wait_action(wait.next()),
            DownloadSent::Chunk(wait) => {
                reader.consume(n);
                DownloadAction::Progress(n, DownloadReported { wait })
            },
        }
    }
}

impl<L> DownloadReported<L> {
    /// What comes after the report: the device is waited for.
    pub open spec fn waiting<S, K, D>(self) -> DownloadView<S, L, K, D> {
        after_wait(self.wait.due())
    }

    /// Goes on after the report: waits for the device.
    pub fn reported<'buf, S, K, D>(self) -> (r: DownloadAction<'buf, S, L, K, D>)
        ensures
            r@ == self.waiting::<S, K, D>(),
    {
        wait_action(self.wait.next())
    }
}

impl<L> DownloadSlept<L> {
    /// What comes after the sleep: the status is asked for.
    pub open spec fn awake<S, K, D>(self, room: nat) -> DownloadView<S, L, K, D> {
        DownloadView::Read(
            get_status::status_request(room),
            DownloadReply::Poll(GetStatusRecv { chained_command: self.command.chained_command }),
        )
    }

    /// Goes on after the sleep.
    pub fn slept<'buf, S, K, D>(self, buffer: &'buf mut [u8]) -> (r: DownloadAction<
        'buf,
        S,
        L,
        K,
        D,
    >)
        ensures
            r@ == self.awake::<S, K, D>(old(buffer)@.len()),
            r matches DownloadAction::Read(control, _) ==> {
                let n = control.buffer@.len() as int;
                &&& control.buffer@ == old(buffer)@.take(n)
                &&& final(buffer)@ == final(control.buffer)@ + old(buffer)@.skip(n)
            },
    {
        let (recv, control) = self.command.get_status(buffer);
        DownloadAction::Read(control, DownloadReply::Poll(recv))
    }
}

} // verus!
