use vstd::prelude::*;

verus! {

/// A control transfer from the device to the host, into `buffer`.
pub struct UsbReadControl<'buf> {
    pub request_type: u8,
    pub request: u8,
    pub value: u16,
    pub buffer: &'buf mut [u8],
}

/// What a device sees of a [`UsbReadControl`].
pub struct ReadRequest {
    pub request_type: u8,
    pub request: u8,
    pub value: u16,
    /// The number of bytes that the host has room for.
    pub length: nat,
}

impl<'buf> View for UsbReadControl<'buf> {
    type V = ReadRequest;

    open spec fn view(&self) -> ReadRequest {
        ReadRequest {
            request_type: self.request_type,
            request: self.request,
            value: self.value,
            length: self.buffer@.len(),
        }
    }
}

/// A control transfer from the host to the device, with `data` as its payload.
#[derive(Debug)]
pub struct UsbWriteControl<D> {
    pub request_type: u8,
    pub request: u8,
    pub value: u16,
    pub data: D,
}

} // verus!
