//! What an instance of [`DfuSync`] does with its device.
//!
//! What a device answers is said in terms of the calls that the instance makes: nothing is known
//! of them but what came back.

use crate::buffer::Buffer;
use crate::control::UsbWriteControl;
use crate::device;
use crate::device::Device;
use crate::download_session::DownloadFill;
use crate::error::Error;
use crate::functional_descriptor::FunctionalDescriptor;
use crate::io::DfuIo;
use crate::sans_io::DfuProtocol;
use crate::state::State;
use crate::synchronous::DfuSync;
use crate::upload_session::UploadStart;
use vstd::prelude::*;

verus! {

/// However often it is asked, `io` describes its device by `descriptor`.
pub open spec fn always_describes<IO: DfuIo>(io: IO, descriptor: FunctionalDescriptor) -> bool {
    forall|answer: &FunctionalDescriptor| #[trigger]
        call_ensures(IO::functional_descriptor, (&io,), answer) ==> *answer == descriptor
}

/// However often it is asked, `io` tells that its device speaks `protocol`.
pub open spec fn always_speaks<IO: DfuIo>(io: IO, protocol: DfuProtocol) -> bool {
    forall|answer: &DfuProtocol| #[trigger]
        call_ensures(IO::protocol, (&io,), answer) ==> *answer == protocol
}

/// A new instance has room for one whole transfer of the size that the device gives when it is
/// asked first, all zero, and goes by the descriptor that the device gives when it is asked again.
/// It overrides no address, reports no progress and keeps what reaches the device.
pub proof fn law_new_asks_twice<IO: DfuIo, P>(io: IO, new: DfuSync<IO, P>)
    requires
        call_ensures(DfuSync::<IO, P>::new, (io,), new),
    ensures
        exists|first: &FunctionalDescriptor, second: &FunctionalDescriptor|
            {
                &&& #[trigger] call_ensures(IO::functional_descriptor, (&io,), first)
                &&& #[trigger] call_ensures(IO::functional_descriptor, (&io,), second)
                &&& new@.buffer.len() == first.transfer_size
                &&& new@.dfu.descriptor == *second
            },
        forall|i: int| 0 <= i < new@.buffer.len() ==> #[trigger] new@.buffer[i] == 0,
        new@.dfu.override_address is None,
        new@.progress is None,
        new@.io == io,
{
    let (room, descriptor) = choose|room: FunctionalDescriptor, descriptor: FunctionalDescriptor|
        {
            &&& #[trigger] crate::io::describes(io, room)
            &&& #[trigger] crate::io::describes(io, descriptor)
            &&& new@ == crate::synchronous::DfuSyncView::<IO, P>::made(io, room, descriptor)
        };
    assert(call_ensures(IO::functional_descriptor, (&io,), &room));
    assert(call_ensures(IO::functional_descriptor, (&io,), &descriptor));
}

/// A new instance for a device that always describes itself the same has room for exactly one
/// whole transfer.
pub proof fn law_new_has_room<IO: DfuIo, P>(
    io: IO,
    descriptor: FunctionalDescriptor,
    new: DfuSync<IO, P>,
)
    requires
        call_ensures(DfuSync::<IO, P>::new, (io,), new),
        always_describes(io, descriptor),
    ensures
        new@.buffer.len() == descriptor.transfer_size,
        new@.dfu.descriptor == descriptor,
        new@.has_room(),
{
    law_new_asks_twice(io, new);
}

/// What an operation works with is what the instance holds.
pub proof fn law_parts<'a, IO: DfuIo, P>(
    dfu: &'a mut DfuSync<IO, P>,
    io: &'a IO,
    buffer: &'a mut [u8],
    progress: &'a mut Option<P>,
)
    requires
        call_ensures(DfuSync::<IO, P>::parts, (dfu,), (io, buffer, progress)),
    ensures
        *io == old(dfu)@.io,
        old(buffer)@ == old(dfu)@.buffer,
        *old(progress) == old(dfu)@.progress,
        final(dfu)@.io == old(dfu)@.io,
        final(dfu)@.dfu == old(dfu)@.dfu,
        final(dfu)@.buffer == final(buffer)@,
        final(dfu)@.progress == *final(progress),
{
}

/// An instance gives back what reaches the device.
pub proof fn law_io_is_kept<IO: DfuIo, P>(dfu: DfuSync<IO, P>, io: &IO, inner: IO)
    requires
        call_ensures(DfuSync::<IO, P>::io, (&dfu,), io),
        call_ensures(DfuSync::<IO, P>::into_inner, (dfu,), inner),
    ensures
        *io == dfu@.io,
        inner == dfu@.io,
{
}

/// The address that was set last is the one that overrides, and nothing else changes.
pub proof fn law_last_address_overrides<IO: DfuIo, P>(
    dfu: &mut DfuSync<IO, P>,
    address: u32,
    after: &mut DfuSync<IO, P>,
)
    requires
        call_ensures(DfuSync::<IO, P>::override_address, (dfu, address), after),
    ensures
        old(after)@.dfu.override_address == Some(address),
        old(after)@.dfu.descriptor == old(dfu)@.dfu.descriptor,
        old(after)@.io == old(dfu)@.io,
        old(after)@.buffer == old(dfu)@.buffer,
        old(after)@.progress == old(dfu)@.progress,
        *final(dfu) == *final(after),
{
}

/// Progress is reported to what was given last, and nothing else changes.
pub proof fn law_last_progress_counts<IO: DfuIo, P>(
    dfu: &mut DfuSync<IO, P>,
    progress: P,
    after: &mut DfuSync<IO, P>,
)
    requires
        call_ensures(DfuSync::<IO, P>::with_progress, (dfu, progress), after),
    ensures
        old(after)@.progress == Some(progress),
        old(after)@.dfu == old(dfu)@.dfu,
        old(after)@.io == old(dfu)@.io,
        old(after)@.buffer == old(dfu)@.buffer,
        *final(dfu) == *final(after),
{
}

/// A download begins with an empty buffer for one transfer, of the size that the device gives when
/// it is asked, and is for the device and the address of the instance and for the length asked
/// for.
pub open spec fn begins_download<IO: DfuIo, P, K>(
    dfu: DfuSync<IO, P>,
    length: int,
    reader: Buffer,
    fill: DownloadFill<K>,
) -> bool {
    &&& reader.data().len() == 0
    &&& exists|answer: &FunctionalDescriptor| #[trigger]
        call_ensures(IO::functional_descriptor, (&dfu@.io,), answer) && reader.capacity()
            == answer.transfer_size
    &&& fill matches DownloadFill::First(sans_io, announced) && sans_io == dfu@.dfu && announced
        == length
}

/// A download of so many bytes, of all the bytes of a slice, and of a source with so many bytes:
/// they begin the same. A slice or a source with more bytes than 32 bits can tell is refused, each
/// for its own reason, and no other is.
pub proof fn law_download_begins<IO: DfuIo, P, K>(
    dfu: &DfuSync<IO, P>,
    length: u32,
    begun: (Buffer, DownloadFill<K>),
    slice: &[u8],
    from_slice: Result<(Buffer, DownloadFill<K>), Error>,
    end: u64,
    all: Result<(Buffer, DownloadFill<K>), Error>,
)
    requires
        call_ensures(DfuSync::<IO, P>::download::<K>, (dfu, length), begun),
        call_ensures(DfuSync::<IO, P>::download_from_slice::<K>, (dfu, slice), from_slice),
        call_ensures(DfuSync::<IO, P>::download_all::<K>, (dfu, end), all),
    ensures
        begins_download(*dfu, length as int, begun.0, begun.1),
        from_slice is Ok <==> slice@.len() <= 0xffff_ffff,
        from_slice matches Err(e) ==> e == Error::OutOfCapabilities,
        from_slice matches Ok((reader, fill)) ==> begins_download(
            *dfu,
            slice@.len() as int,
            reader,
            fill,
        ),
        all is Ok <==> end <= 0xffff_ffff,
        all matches Err(e) ==> e == Error::MaximumTransferSizeExceeded,
        all matches Ok((reader, fill)) ==> begins_download(*dfu, end as int, reader, fill),
{
    let io = dfu@.io;
    assert forall|descriptor: FunctionalDescriptor| #[trigger]
        crate::io::describes(io, descriptor) implies call_ensures(
        IO::functional_descriptor,
        (&io,),
        &descriptor,
    ) by {}
}

/// An upload goes over the protocol that the device answers with, and is then the same as over
/// that protocol.
pub proof fn law_upload_asks_for_the_protocol<IO: DfuIo, P>(
    dfu: &DfuSync<IO, P>,
    length: u32,
    begun: Result<UploadStart, Error>,
)
    requires
        call_ensures(DfuSync::<IO, P>::upload, (dfu, length), begun),
    ensures
        exists|protocol: &DfuProtocol|
            {
                &&& #[trigger] call_ensures(IO::protocol, (&dfu@.io,), protocol)
                &&& forall|over: Result<UploadStart, Error>| #[trigger]
                    call_ensures(DfuSync::<IO, P>::upload_over, (dfu, protocol, length), over)
                        ==> over == begun
            },
{
    let protocol = choose|protocol: DfuProtocol| #[trigger]
        crate::io::speaks(dfu@.io, protocol) && begun == dfu@.upload(protocol, length);
    assert(call_ensures(IO::protocol, (&dfu@.io,), &protocol));
}

/// The number of bytes of an entire upload over `protocol`: the sum of the pages with DfuSe, as
/// much as can be told with standard DFU.
pub open spec fn entire_size(protocol: DfuProtocol) -> int {
    match protocol {
        DfuProtocol::Dfu => 0xffff_ffff,
        DfuProtocol::Dfuse { memory_layout, .. } => memory_layout@.fold_left(
            0int,
            |sum: int, next: u32| sum + next,
        ),
    }
}

/// An entire upload is one of as many bytes as the protocol tells that the device answers with
/// first, over the protocol that it answers with then. There is none if and only if these are more
/// than can be told.
pub proof fn law_entire_upload_asks_twice<IO: DfuIo, P>(
    dfu: &DfuSync<IO, P>,
    begun: Option<Result<UploadStart, Error>>,
)
    requires
        call_ensures(DfuSync::<IO, P>::try_upload_all, (dfu,), begun),
    ensures
        exists|first: &DfuProtocol|
            {
                &&& #[trigger] call_ensures(IO::protocol, (&dfu@.io,), first)
                &&& begun is None <==> entire_size(*first) > 0xffff_ffff
                &&& begun matches Some(start) ==> exists|second: &DfuProtocol|
                    {
                        &&& #[trigger] call_ensures(IO::protocol, (&dfu@.io,), second)
                        &&& forall|length: u32, over: Result<UploadStart, Error>|
                            length == entire_size(*first) && #[trigger] call_ensures(
                                DfuSync::<IO, P>::upload_over,
                                (dfu, second, length),
                                over,
                            ) ==> over == start
                    }
            },
{
    let io = dfu@.io;
    let first = choose|first: DfuProtocol| #[trigger]
        crate::io::speaks(io, first) && match begun {
            None => first.entire() > u32::MAX,
            Some(start) => {
                &&& first.entire() <= u32::MAX
                &&& exists|second: DfuProtocol| #[trigger]
                    crate::io::speaks(io, second) && start == dfu@.upload(
                        second,
                        first.entire() as u32,
                    )
            },
        };
    assert(call_ensures(IO::protocol, (&io,), &first));
    lemma_entire_size(first);
    if let Some(start) = begun {
        let second = choose|second: DfuProtocol| #[trigger]
            crate::io::speaks(io, second) && start == dfu@.upload(
                second,
                first.entire() as u32,
            );
        assert(call_ensures(IO::protocol, (&io,), &second));
    }
}

proof fn lemma_entire_size(protocol: DfuProtocol)
    ensures
        protocol.entire() == entire_size(protocol),
{
    if let DfuProtocol::Dfuse { memory_layout, .. } = protocol {
        crate::calls::law_layout_adds_up(memory_layout@, Seq::empty(), 0);
    }
}

/// Where no protocol of the device has more bytes than can be told, an entire upload is begun, and
/// in the same way.
pub proof fn law_entire_upload<IO: DfuIo, P>(
    dfu: &DfuSync<IO, P>,
    protocol: DfuProtocol,
    all: Result<UploadStart, Error>,
    tried: Option<Result<UploadStart, Error>>,
    length: u32,
    over: Result<UploadStart, Error>,
)
    requires
        always_speaks(dfu@.io, protocol),
        length == entire_size(protocol),
        call_ensures(DfuSync::<IO, P>::upload_all, (dfu,), all),
        call_ensures(DfuSync::<IO, P>::try_upload_all, (dfu,), tried),
        call_ensures(DfuSync::<IO, P>::upload_over, (dfu, &protocol, length), over),
    ensures
        all == over,
        tried == Some(over),
{
    lemma_entire_size(protocol);
    lemma_speaks(dfu@.io, protocol);
}

proof fn lemma_speaks<IO: DfuIo>(io: IO, protocol: DfuProtocol)
    requires
        always_speaks(io, protocol),
    ensures
        forall|answer: DfuProtocol| #[trigger]
            crate::io::speaks(io, answer) ==> answer == protocol,
{
    assert forall|answer: DfuProtocol| #[trigger] crate::io::speaks(io, answer) implies answer
        == protocol by {
        assert(call_ensures(IO::protocol, (&io,), &answer));
    }
}

/// A detach request is sent with the detach timeout of the device, and fails if and only if it
/// could not be sent, for the same reason.
pub proof fn law_detach_is_sent<IO: DfuIo, P>(dfu: &DfuSync<IO, P>, sent: Result<(), IO::Error>)
    requires
        call_ensures(DfuSync::<IO, P>::detach, (dfu,), sent),
    ensures
        exists|payload: &[u8], reply: Result<IO::Write, IO::Error>|
            {
                &&& #[trigger] call_ensures(
                    IO::write_control,
                    (&dfu@.io, 0x21u8, 0u8, dfu@.dfu.descriptor.detach_timeout, payload),
                    reply,
                )
                &&& payload@.len() == 0
                &&& sent is Ok <==> reply is Ok
                &&& reply matches Err(e) ==> sent == Err::<(), IO::Error>(e)
            },
{
}

/// A control transfer is made as it stands, and gives what came back.
pub proof fn law_transfer_is_made<IO: DfuIo, const N: usize>(
    control: UsbWriteControl<[u8; N]>,
    io: &IO,
    reply: Result<IO::Write, IO::Error>,
)
    requires
        call_ensures(UsbWriteControl::<[u8; N]>::execute::<IO>, (control, io), reply),
    ensures
        exists|payload: &[u8]|
            {
                &&& payload@ == control.data@
                &&& #[trigger] call_ensures(
                    IO::write_control,
                    (io, control.request_type, control.request, control.value, payload),
                    reply,
                )
            },
{
}

/// A reset is a reset of the device, and gives what came back.
pub proof fn law_reset_is_made<IO: DfuIo, P>(
    dfu: DfuSync<IO, P>,
    reply: Result<IO::Reset, IO::Error>,
)
    requires
        call_ensures(DfuSync::<IO, P>::usb_reset, (dfu,), reply),
    ensures
        call_ensures(IO::usb_reset, (dfu@.io,), reply),
{
}

/// What an instance tells of its device is what the device says of itself when it is asked.
pub proof fn law_device_is_asked<IO: DfuIo, P>(
    dfu: &DfuSync<IO, P>,
    will_detach: bool,
    manifestation_tolerant: bool,
)
    requires
        call_ensures(DfuSync::<IO, P>::will_detach, (dfu,), will_detach),
        call_ensures(DfuSync::<IO, P>::manifestation_tolerant, (dfu,), manifestation_tolerant),
    ensures
        exists|answer: &FunctionalDescriptor| #[trigger]
            call_ensures(IO::functional_descriptor, (&dfu@.io,), answer) && will_detach
                == answer.will_detach,
        exists|answer: &FunctionalDescriptor| #[trigger]
            call_ensures(IO::functional_descriptor, (&dfu@.io,), answer) && manifestation_tolerant
                == answer.manifestation_tolerant,
{
    let io = dfu@.io;
    let one = choose|descriptor: FunctionalDescriptor| #[trigger]
        crate::io::describes(io, descriptor) && will_detach == descriptor.will_detach;
    assert(call_ensures(IO::functional_descriptor, (&io,), &one));
    let other = choose|descriptor: FunctionalDescriptor| #[trigger]
        crate::io::describes(io, descriptor) && manifestation_tolerant
            == descriptor.manifestation_tolerant;
    assert(call_ensures(IO::functional_descriptor, (&io,), &other));
}

/// A new instance for a device that always says the same of itself uploads the entire firmware of
/// the device: with standard DFU all that it has, if that can be counted, and with DfuSe its whole
/// memory, if that begins at the address of the protocol, has the size of the layout and no more
/// than 65534 blocks.
pub proof fn law_new_instance_uploads_all<IO: DfuIo, P>(
    io: IO,
    descriptor: FunctionalDescriptor,
    protocol: DfuProtocol,
    new: DfuSync<IO, P>,
    begun: Result<UploadStart, Error>,
    device: Device,
)
    requires
        always_describes(io, descriptor),
        always_speaks(io, protocol),
        call_ensures(DfuSync::<IO, P>::new, (io,), new),
        call_ensures(DfuSync::<IO, P>::upload_all, (&new,), begun),
        descriptor.can_upload,
        descriptor.transfer_size >= 6,
        device.state == State::DfuIdle || device.state == State::DfuError,
        device.block_size == descriptor.transfer_size,
        device.served == 0,
        device.memory.len() <= 0xffff_ffff,
        match protocol {
            DfuProtocol::Dfu => !device.addressed,
            DfuProtocol::Dfuse { address, .. } => {
                &&& device.addressed
                &&& device.base == address
                &&& device.memory.len() == entire_size(protocol)
                &&& device.memory.len() <= 65534 * device.block_size
            },
        },
    ensures
        ({
            let room = new@.buffer.len();
            &&& begun matches Ok(start)
            &&& device::ends(device, start.begun(room), Seq::empty(), room, Ok(device.memory))
        }),
{
    law_new_asks_twice(io, new);
    lemma_entire_size(protocol);
    lemma_speaks(io, protocol);
    if protocol is Dfu {
        device::law_dfu_upload_all(new@, protocol, device);
    } else {
        device::law_dfuse_upload_all(new@, protocol, device);
    }
}

} // verus!
