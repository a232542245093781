use crate::control::UsbWriteControl;
use crate::error::Error;
use crate::functional_descriptor::FunctionalDescriptor;
use crate::get_status::{ClearStatus, GetStatus, REQUEST_TYPE_OUT};
use crate::upload::{DfuseProtocolData, ProtocolData, Start};
use vstd::prelude::*;

verus! {

pub const DFU_DETACH: u8 = 0;

/// The DFU protocol that a device speaks.
#[derive(Debug)]
pub enum DfuProtocol {
    /// Standard DFU.
    Dfu,
    /// DFU with the DfuSe extensions.
    Dfuse {
        /// Address that transfers start at.
        address: u32,
        /// Size of each page of the memory.
        memory_layout: Vec<u32>,
    },
}

/// The number of bytes in a memory with pages of these sizes.
pub open spec fn layout_size(pages: Seq<u32>) -> nat
    decreases pages.len(),
{
    if pages.len() == 0 {
        0
    } else {
        layout_size(pages.drop_last()) + pages.last() as nat
    }
}

proof fn lemma_layout_size_grows(pages: Seq<u32>, n: int)
    requires
        0 <= n <= pages.len(),
    ensures
        layout_size(pages.take(n)) <= layout_size(pages),
    decreases pages.len(),
{
    if n < pages.len() {
        lemma_layout_size_grows(pages.drop_last(), n);
        assert(pages.drop_last().take(n) =~= pages.take(n));
    } else {
        assert(pages.take(n) =~= pages);
    }
}

fn sum_layout(pages: &Vec<u32>) -> (r: Option<u32>)
    ensures
        r == if layout_size(pages@) <= u32::MAX {
            Some(layout_size(pages@) as u32)
        } else {
            None
        },
{
    let mut sum: u32 = 0;
    let mut i: usize = 0;
    while i < pages.len()
        invariant
            i <= pages@.len(),
            sum == layout_size(pages@.take(i as int)),
        decreases pages@.len() - i,
    {
        proof {
            assert(pages@.take(i + 1).drop_last() =~= pages@.take(i as int));
            lemma_layout_size_grows(pages@, i + 1);
        }
        match sum.checked_add(pages[i]) {
            None => {
                return None;
            },
            Some(next) => {
                sum = next;
            },
        }
        i += 1;
    }
    assert(pages@.take(i as int) =~= pages@);
    Some(sum)
}

impl DfuProtocol {
    /// The number of bytes to ask for in order to get the entire firmware: with DfuSe the size of
    /// the memory, with standard DFU as many as can be counted.
    pub open spec fn entire(self) -> nat {
        match self {
            DfuProtocol::Dfu => u32::MAX as nat,
            DfuProtocol::Dfuse { memory_layout, .. } => layout_size(memory_layout@),
        }
    }

    /// The number of bytes to ask for in order to get the entire firmware, unless these are too
    /// many to be counted.
    pub fn entire_length(&self) -> (r: Option<u32>)
        ensures
            r == if self.entire() <= u32::MAX {
                Some(self.entire() as u32)
            } else {
                None
            },
    {
        match self {
            DfuProtocol::Dfu => Some(u32::MAX),
            DfuProtocol::Dfuse { memory_layout, .. } => sum_layout(memory_layout),
        }
    }
}

/// Every operation on a device, as far as it goes without the device.
#[derive(Debug, Clone, Copy)]
pub struct DfuSansIo {
    pub descriptor: FunctionalDescriptor,
    /// Address to use in place of the one that the protocol gives.
    pub override_address: Option<u32>,
}

impl DfuSansIo {
    /// Create an instance for the device that `descriptor` describes.
    pub fn new(descriptor: FunctionalDescriptor) -> (r: DfuSansIo)
        ensures
            r == (DfuSansIo { descriptor, override_address: None }),
    {
        DfuSansIo { descriptor, override_address: None }
    }

    /// Override the address of the protocol.
    pub fn set_address(&mut self, address: u32)
        ensures
            *final(self) == (DfuSansIo {
                descriptor: old(self).descriptor,
                override_address: Some(address),
            }),
    {
        self.override_address = Some(address);
    }

    /// The address that transfers start at: with DfuSe the overriding one, or else the one that
    /// the protocol gives; with standard DFU none.
    pub open spec fn address(self, protocol: DfuProtocol) -> Option<u32> {
        match protocol {
            DfuProtocol::Dfu => None,
            DfuProtocol::Dfuse { address, .. } => match self.override_address {
                Some(other) => Some(other),
                None => Some(address),
            },
        }
    }

    /// The address that transfers over `protocol` start at, if it has addresses.
    pub fn transfer_address(&self, protocol: &DfuProtocol) -> (r: Option<u32>)
        ensures
            r == self.address(*protocol),
    {
        match protocol {
            DfuProtocol::Dfu => None,
            DfuProtocol::Dfuse { address, .. } => match self.override_address {
                Some(other) => Some(other),
                None => Some(*address),
            },
        }
    }

    /// What the upload keeps of the protocol: nothing of standard DFU; of DfuSe the address, which
    /// the device has not been told yet.
    pub open spec fn upload_protocol(self, protocol: DfuProtocol) -> ProtocolData {
        match self.address(protocol) {
            None => ProtocolData::Dfu,
            Some(address) => ProtocolData::Dfuse(
                DfuseProtocolData { address, address_set: false },
            ),
        }
    }

    /// The command chain of an upload of `length` bytes. It is refused if and only if the device
    /// does not hand its firmware out.
    pub open spec fn upload_chain(self, protocol: DfuProtocol, length: u32) -> Result<
        GetStatus<ClearStatus<GetStatus<Start>>>,
        Error,
    > {
        if self.descriptor.can_upload {
            Ok(
                GetStatus {
                    chained_command: ClearStatus {
                        chained_command: GetStatus {
                            chained_command: Start {
                                descriptor: self.descriptor,
                                remaining: length,
                                protocol: self.upload_protocol(protocol),
                            },
                        },
                    },
                },
            )
        } else {
            Err(Error::OutOfCapabilities)
        }
    }

    /// Create the command chain that uploads `length` bytes of firmware from the device.
    pub fn upload(&self, protocol: &DfuProtocol, length: u32) -> (r: Result<
        GetStatus<ClearStatus<GetStatus<Start>>>,
        Error,
    >)
        ensures
            r == self.upload_chain(*protocol, length),
    {
        if !self.descriptor.can_upload {
            return Err(Error::OutOfCapabilities);
        }
        let protocol = match self.transfer_address(protocol) {
            None => ProtocolData::Dfu,
            Some(address) => ProtocolData::Dfuse(
                DfuseProtocolData { address, address_set: false },
            ),
        };
        let start = Start { descriptor: self.descriptor, remaining: length, protocol };
        Ok(
            GetStatus {
                chained_command: ClearStatus {
                    chained_command: GetStatus { chained_command: start },
                },
            },
        )
    }

    /// The request that makes the device detach.
    pub open spec fn detach_request(self) -> UsbWriteControl<[u8; 0]> {
        UsbWriteControl {
            request_type: REQUEST_TYPE_OUT,
            request: DFU_DETACH,
            value: self.descriptor.detach_timeout,
            data: [],
        }
    }

    /// Create the request that makes the device detach.
    pub fn detach(&self) -> (r: UsbWriteControl<[u8; 0]>)
        ensures
            r == self.detach_request(),
    {
        UsbWriteControl {
            request_type: REQUEST_TYPE_OUT,
            request: DFU_DETACH,
            value: self.descriptor.detach_timeout,
            data: [],
        }
    }
}

} // verus!
