use crate::control::UsbWriteControl;
use crate::functional_descriptor::FunctionalDescriptor;
use crate::sans_io::DfuProtocol;
use vstd::prelude::*;

verus! {

/// Lower level communication with a USB device.
///
/// Nothing is known of what an implementation answers: not even that it answers twice the same.
pub trait DfuIo: Sized {
    /// What a control transfer from the device gives.
    type Read;

    /// What a control transfer to the device gives.
    type Write;

    /// What a reset gives.
    type Reset;

    /// What can go wrong on the bus.
    type Error;

    /// Read data using control transfer.
    fn read_control(
        &self,
        request_type: u8,
        request: u8,
        value: u16,
        buffer: &mut [u8],
    ) -> Result<Self::Read, Self::Error>;

    /// Write data using control transfer.
    fn write_control(
        &self,
        request_type: u8,
        request: u8,
        value: u16,
        buffer: &[u8],
    ) -> Result<Self::Write, Self::Error>;

    /// Triggers USB reset.
    fn usb_reset(self) -> Result<Self::Reset, Self::Error>;

    /// The DFU protocol of the device.
    fn protocol(&self) -> &DfuProtocol;

    /// The functional descriptor of the device.
    fn functional_descriptor(&self) -> &FunctionalDescriptor;
}

/// `io` can answer that the device speaks `protocol`.
pub open spec fn speaks<IO: DfuIo>(io: IO, protocol: DfuProtocol) -> bool {
    call_ensures(IO::protocol, (&io,), &protocol)
}

/// `io` can answer that `descriptor` describes the device.
pub open spec fn describes<IO: DfuIo>(io: IO, descriptor: FunctionalDescriptor) -> bool {
    call_ensures(IO::functional_descriptor, (&io,), &descriptor)
}

/// `io` can answer `reply` to the control transfer `control`.
pub open spec fn writes<IO: DfuIo, const N: usize>(
    io: IO,
    control: UsbWriteControl<[u8; N]>,
    reply: Result<IO::Write, IO::Error>,
) -> bool {
    exists|payload: &[u8]|
        payload@ == control.data@ && #[trigger] call_ensures(
            IO::write_control,
            (&io, control.request_type, control.request, control.value, payload),
            reply,
        )
}

/// `io` can answer `reply` to a reset.
pub open spec fn resets<IO: DfuIo>(io: IO, reply: Result<IO::Reset, IO::Error>) -> bool {
    call_ensures(IO::usb_reset, (io,), reply)
}

impl<const N: usize> UsbWriteControl<[u8; N]> {
    /// Makes the control transfer.
    pub fn execute<IO: DfuIo>(self, io: &IO) -> (r: Result<IO::Write, IO::Error>)
        ensures
            writes(*io, self, r),
    {
        let r = io.write_control(
            self.request_type,
            self.request,
            self.value,
            self.data.as_slice(),
        );
        assert(writes(*io, self, r));
        r
    }
}

} // verus!
