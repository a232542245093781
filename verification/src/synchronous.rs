use crate::buffer::Buffer;
use crate::download_session::DownloadFill;
use crate::error::Error;
use crate::functional_descriptor::FunctionalDescriptor;
use crate::get_status::{GetStatusRecv, Step, WaitState};
use crate::io::DfuIo;
use crate::sans_io::{DfuProtocol, DfuSansIo};
use crate::upload_session::UploadStart;
use vstd::pervasive::unreached;
use vstd::prelude::*;

verus! {

/// The step of a wait that is due after the device has answered with `bytes`.
pub open spec fn waited<T>(recv: GetStatusRecv<WaitState<T>>, bytes: Seq<u8>) -> Result<
    Step<T>,
    Error,
> {
    match recv.chained(bytes) {
        Err(e) => Err(e),
        Ok(Err(e)) => Err(e),
        Ok(Ok(cmd)) => Ok(cmd.due()),
    }
}

/// One round of a wait: takes in the status that the device has answered with and tells whether
/// the wait is over or how long to sleep before the status is asked for again.
pub fn wait_for_state<T>(recv: GetStatusRecv<WaitState<T>>, reply: &[u8]) -> (r: Result<
    Step<T>,
    Error,
>)
    ensures
        r == waited(recv, reply@),
{
    match recv.chain(reply) {
        Err(e) => Err(e),
        Ok(Err(e)) => Err(e),
        Ok(Ok(cmd)) => Ok(cmd.next()),
    }
}

/// Generic synchronous implementation of DFU.
///
/// `IO` is whatever reaches the device, `P` whatever progress is reported to.
pub struct DfuSync<IO, P> {
    io: IO,
    dfu: DfuSansIo,
    buffer: Vec<u8>,
    progress: Option<P>,
}

/// What a [`DfuSync`] holds.
pub struct DfuSyncView<IO, P> {
    pub io: IO,
    pub dfu: DfuSansIo,
    pub buffer: Seq<u8>,
    pub progress: Option<P>,
}

impl<IO, P> View for DfuSync<IO, P> {
    type V = DfuSyncView<IO, P>;

    closed spec fn view(&self) -> DfuSyncView<IO, P> {
        DfuSyncView {
            io: self.io,
            dfu: self.dfu,
            buffer: self.buffer@,
            progress: self.progress,
        }
    }
}

impl<IO, P> DfuSyncView<IO, P> {
    /// A new instance, with room in the buffer for a transfer of the size that `room` gives.
    pub open spec fn made(
        io: IO,
        room: FunctionalDescriptor,
        descriptor: FunctionalDescriptor,
    ) -> DfuSyncView<IO, P> {
        DfuSyncView {
            io,
            dfu: DfuSansIo { descriptor, override_address: None },
            buffer: Seq::new(room.transfer_size as nat, |i: int| 0u8),
            progress: None,
        }
    }

    /// The buffer takes one transfer of the largest size.
    pub open spec fn has_room(self) -> bool {
        self.buffer.len() == self.dfu.descriptor.transfer_size
    }

    /// The same with the address overridden.
    pub open spec fn overridden(self, address: u32) -> DfuSyncView<IO, P> {
        DfuSyncView {
            dfu: DfuSansIo {
                descriptor: self.dfu.descriptor,
                override_address: Some(address),
            },
            ..self
        }
    }

    /// What the buffer is filled for first in a download of `length` bytes.
    pub open spec fn download<K>(self, length: u32) -> DownloadFill<K> {
        DownloadFill::First(self.dfu, length)
    }

    /// The beginning of an upload of `length` bytes over `protocol`, or why there is none.
    pub open spec fn upload(self, protocol: DfuProtocol, length: u32) -> Result<
        UploadStart,
        Error,
    > {
        match self.dfu.upload_chain(protocol, length) {
            Err(e) => Err(e),
            Ok(command) => Ok(UploadStart { command }),
        }
    }
}

impl<IO: DfuIo, P> DfuSync<IO, P> {
    /// Create a new instance of a generic synchronous implementation of DFU.
    ///
    /// The device is asked for its functional descriptor twice: for the size of the buffer, and
    /// for what the protocol goes by.
    pub fn new(io: IO) -> (r: Self)
        ensures
            exists|room: FunctionalDescriptor, descriptor: FunctionalDescriptor|
                {
                    &&& #[trigger] crate::io::describes(io, room)
                    &&& #[trigger] crate::io::describes(io, descriptor)
                    &&& r@ == DfuSyncView::<IO, P>::made(io, room, descriptor)
                },
    {
        let room = *io.functional_descriptor();
        let transfer_size = room.transfer_size as usize;
        let descriptor = *io.functional_descriptor();
        proof {
            assert(crate::io::describes(io, room));
            assert(crate::io::describes(io, descriptor));
        }
        let r = DfuSync {
            io,
            dfu: DfuSansIo::new(descriptor),
            buffer: vec![0x00; transfer_size],
            progress: None,
        };
        assert(r@.buffer =~= DfuSyncView::<IO, P>::made(io, room, descriptor).buffer);
        r
    }

    /// Override the address onto which the firmware is downloaded.
    ///
    /// This address is only used if the device uses the DfuSe protocol.
    pub fn override_address(&mut self, address: u32) -> (r: &mut Self)
        ensures
            r@ == old(self)@.overridden(address),
            *final(self) == *final(r),
    {
        self.dfu.set_address(address);
        self
    }

    /// Use this to show progress.
    pub fn with_progress(&mut self, progress: P) -> (r: &mut Self)
        ensures
            r@ == (DfuSyncView { progress: Some(progress), ..old(self)@ }),
            *final(self) == *final(r),
    {
        self.progress = Some(progress);
        self
    }

    /// Consume the object and return its [`DfuIo`]
    pub fn into_inner(self) -> (r: IO)
        ensures
            r == self@.io,
    {
        self.io
    }

    /// What reaches the device.
    pub fn io(&self) -> (r: &IO)
        ensures
            *r == self@.io,
    {
        &self.io
    }

    /// What an operation on the device works with: what reaches the device, the buffer for its
    /// answers and what progress is reported to.
    pub fn parts(&mut self) -> (r: (&IO, &mut [u8], &mut Option<P>))
        ensures
            *r.0 == old(self)@.io,
            r.1@ == old(self)@.buffer,
            *r.2 == old(self)@.progress,
            final(self)@ == (DfuSyncView {
                buffer: final(r.1)@,
                progress: *final(r.2),
                ..old(self)@
            }),
    {
        (&self.io, self.buffer.as_mut_slice(), &mut self.progress)
    }

    /// Download a firmware into the device from a slice: the same as [`Self::download`] of all its
    /// bytes, which have to be few enough to be counted.
    pub fn download_from_slice<K>(&self, slice: &[u8]) -> (r: Result<
        (Buffer, DownloadFill<K>),
        Error,
    >)
        ensures
            slice@.len() > u32::MAX <==> r is Err,
            r matches Err(e) ==> e == Error::OutOfCapabilities,
            r matches Ok((reader, fill)) ==> {
                &&& reader.data() == Seq::<u8>::empty()
                &&& exists|descriptor: FunctionalDescriptor| #[trigger]
                    crate::io::describes(self@.io, descriptor) && reader.capacity()
                        == descriptor.transfer_size
                &&& fill == self@.download::<K>(slice@.len() as u32)
            },
    {
        let length: usize = slice.len();
        if length > u32::MAX as usize {
            return Err(Error::OutOfCapabilities);
        }
        Ok(self.download(length as u32))
    }

    /// Download a firmware of `length` bytes into the device.
    ///
    /// Returns the buffer between the source and the device, of the size of a transfer that the
    /// device gives when it is asked, and what it is filled for first.
    pub fn download<K>(&self, length: u32) -> (r: (Buffer, DownloadFill<K>))
        ensures
            r.0.data() == Seq::<u8>::empty(),
            exists|descriptor: FunctionalDescriptor| #[trigger]
                crate::io::describes(self@.io, descriptor) && r.0.capacity()
                    == descriptor.transfer_size,
            r.1 == DownloadFill::<K>::First(self@.dfu, length),
    {
        let descriptor = *self.io.functional_descriptor();
        let transfer_size = descriptor.transfer_size as usize;
        assert(crate::io::describes(self@.io, descriptor));
        (Buffer::new(transfer_size), DownloadFill::First(self.dfu, length))
    }

    /// Download a firmware into the device, from a source that has `end` bytes.
    pub fn download_all<K>(&self, end: u64) -> (r: Result<(Buffer, DownloadFill<K>), Error>)
        ensures
            end > u32::MAX <==> r is Err,
            r matches Err(e) ==> e == Error::MaximumTransferSizeExceeded,
            r matches Ok((reader, fill)) ==> {
                &&& reader.data() == Seq::<u8>::empty()
                &&& exists|descriptor: FunctionalDescriptor| #[trigger]
                    crate::io::describes(self@.io, descriptor) && reader.capacity()
                        == descriptor.transfer_size
                &&& fill == self@.download::<K>(end as u32)
            },
    {
        if end > u32::MAX as u64 {
            return Err(Error::MaximumTransferSizeExceeded);
        }
        Ok(self.download(end as u32))
    }

    /// Upload firmware from the device, over the protocol that it speaks when it is asked.
    ///
    /// For standard DFU, pass `u32::MAX` for `length` to read until the device signals
    /// end-of-upload. For DfuSe, pass the exact number of bytes to read.
    pub fn upload(&self, length: u32) -> (r: Result<UploadStart, Error>)
        ensures
            exists|protocol: DfuProtocol| #[trigger]
                crate::io::speaks(self@.io, protocol) && r == self@.upload(protocol, length),
    {
        let protocol = self.io.protocol();
        assert(crate::io::speaks(self@.io, *protocol));
        self.upload_over(protocol, length)
    }

    /// Upload firmware from the device over `protocol`.
    pub fn upload_over(&self, protocol: &DfuProtocol, length: u32) -> (r: Result<
        UploadStart,
        Error,
    >)
        ensures
            r == self@.upload(*protocol, length),
    {
        match self.dfu.upload(protocol, length) {
            Err(e) => Err(e),
            Ok(command) => Ok(UploadStart { command }),
        }
    }

    /// Upload the entire firmware from the device.
    ///
    /// For DfuSe devices, the upload length is derived from the memory layout. For standard DFU
    /// devices, upload continues until the device signals end-of-upload. The device is asked for
    /// its protocol twice: for the length, and for the upload.
    pub fn upload_all(&self) -> (r: Result<UploadStart, Error>)
        requires
            forall|protocol: DfuProtocol| #[trigger]
                crate::io::speaks(self@.io, protocol) ==> protocol.entire() <= u32::MAX,
        ensures
            exists|first: DfuProtocol, second: DfuProtocol|
                {
                    &&& #[trigger] crate::io::speaks(self@.io, first)
                    &&& #[trigger] crate::io::speaks(self@.io, second)
                    &&& r == self@.upload(second, first.entire() as u32)
                },
    {
        match self.try_upload_all() {
            Some(r) => r,
            None => unreached(),
        }
    }

    /// The same as [`Self::upload_all`], unless the memory of the device is larger than a length
    /// can tell: then there is no upload to begin.
    pub fn try_upload_all(&self) -> (r: Option<Result<UploadStart, Error>>)
        ensures
            exists|first: DfuProtocol| #[trigger]
                crate::io::speaks(self@.io, first) && match r {
                    None => first.entire() > u32::MAX,
                    Some(start) => {
                        &&& first.entire() <= u32::MAX
                        &&& exists|second: DfuProtocol| #[trigger]
                            crate::io::speaks(self@.io, second) && start == self@.upload(
                                second,
                                first.entire() as u32,
                            )
                    },
                },
    {
        let protocol = self.io.protocol();
        assert(crate::io::speaks(self@.io, *protocol));
        match protocol.entire_length() {
            None => None,
            Some(length) => Some(self.upload(length)),
        }
    }

    /// Send a Detach request to the device
    pub fn detach(&self) -> (r: Result<(), IO::Error>)
        ensures
            exists|reply: Result<IO::Write, IO::Error>|
                {
                    &&& #[trigger] crate::io::writes(self@.io, self@.dfu.detach_request(), reply)
                    &&& match reply {
                        Ok(_) => r is Ok,
                        Err(e) => r == Err::<(), IO::Error>(e),
                    }
                },
    {
        let reply = self.dfu.detach().execute(&self.io);
        assert(crate::io::writes(self@.io, self@.dfu.detach_request(), reply));
        match reply {
            Ok(_) => Ok(()),
            Err(e) => Err(e),
        }
    }

    /// Reset the USB device
    pub fn usb_reset(self) -> (r: Result<IO::Reset, IO::Error>)
        ensures
            crate::io::resets(self@.io, r),
    {
        self.io.usb_reset()
    }

    /// Returns whether the device will detach if requested
    pub fn will_detach(&self) -> (r: bool)
        ensures
            exists|descriptor: FunctionalDescriptor| #[trigger]
                crate::io::describes(self@.io, descriptor) && r == descriptor.will_detach,
    {
        let descriptor = self.io.functional_descriptor();
        assert(crate::io::describes(self@.io, *descriptor));
        descriptor.will_detach
    }

    /// Returns whether the device is manifestation tolerant
    pub fn manifestation_tolerant(&self) -> (r: bool)
        ensures
            exists|descriptor: FunctionalDescriptor| #[trigger]
                crate::io::describes(self@.io, descriptor) && r
                    == descriptor.manifestation_tolerant,
    {
        let descriptor = self.io.functional_descriptor();
        assert(crate::io::describes(self@.io, *descriptor));
        descriptor.manifestation_tolerant
    }
}

} // verus!
