use vstd::prelude::*;

verus! {

/// The DFU functional descriptor of a device.
#[derive(Debug, Clone, Copy, PartialEq, Eq, Structural)]
pub struct FunctionalDescriptor {
    /// The device accepts firmware.
    pub can_download: bool,
    /// The device hands its firmware out.
    pub can_upload: bool,
    /// The device stays on the bus through manifestation.
    pub manifestation_tolerant: bool,
    /// The device detaches from the bus by itself when asked to.
    pub will_detach: bool,
    /// Time in milliseconds that the device waits for a reset after a detach request.
    pub detach_timeout: u16,
    /// Largest number of bytes in one control transfer.
    pub transfer_size: u16,
}

} // verus!
