//! Picking the chip out of the devices attached to the host.

use vstd::prelude::*;
use crate::error::DriverError;

verus! {

/// Vendor identifier of the chip's USB bridge.
pub const AD9959_VENDOR_ID: u16 = 0x0456;

/// Product identifier of the chip's USB bridge.
pub const AD9959_PRODUCT_ID: u16 = 0xee25;

/// What a device must show to be the one that is looked for.
#[derive(Debug, Clone, Copy, PartialEq, Eq)]
pub struct DeviceIdentity {
    pub vendor_id: u16,
    pub product_id: u16,
    /// When given, the physical port the device must sit on; tells identical chips apart.
    pub port_number: Option<u8>,
}

/// Vendor and product identifiers as read from a device descriptor.
#[derive(Debug, Clone, Copy, PartialEq, Eq)]
pub struct ProductIds {
    pub vendor_id: u16,
    pub product_id: u16,
}

/// One entry of the host's enumeration.
#[derive(Debug, Clone, Copy, PartialEq, Eq)]
pub struct AttachedDevice {
    /// The identifiers of the device, or `None` when its descriptor could not be read.
    pub ids: Option<ProductIds>,
    /// The port the device is attached to.
    pub port_number: u8,
}

impl DeviceIdentity {
    /// `device` is the one looked for: its descriptor was read, vendor and
    /// product agree exactly and, where a port is asked for, so does the port.
    pub open spec fn accepts(self, device: AttachedDevice) -> bool {
        match device.ids {
            Some(ids) => {
                &&& ids.vendor_id == self.vendor_id
                &&& ids.product_id == self.product_id
                &&& (self.port_number matches Some(port) ==> device.port_number == port)
            },
            None => false,
        }
    }

    /// Index `index` holds the first device of `devices` that is accepted.
    pub open spec fn first_match_at(self, devices: Seq<AttachedDevice>, index: int) -> bool {
        &&& 0 <= index < devices.len()
        &&& self.accepts(devices[index])
        &&& forall|j: int| 0 <= j < index ==> !self.accepts(#[trigger] devices[j])
    }

    /// No device of `devices` is accepted.
    pub open spec fn no_match(self, devices: Seq<AttachedDevice>) -> bool {
        forall|j: int| 0 <= j < devices.len() ==> !self.accepts(#[trigger] devices[j])
    }

    /// The identity of the chip, on `port_number` if one is given and on any port otherwise.
    pub fn ad9959(port_number: Option<u8>) -> (identity: DeviceIdentity)
        ensures
            identity.vendor_id == AD9959_VENDOR_ID,
            identity.product_id == AD9959_PRODUCT_ID,
            identity.port_number == port_number,
    {
        DeviceIdentity { vendor_id: AD9959_VENDOR_ID, product_id: AD9959_PRODUCT_ID, port_number }
    }

    /// Decides whether `device` is the one looked for.
    pub fn matches(&self, device: &AttachedDevice) -> (accepted: bool)
        ensures
            accepted == self.accepts(*device),
    {
        match device.ids {
            Some(ids) => {
                let on_port: bool = match self.port_number {
                    Some(port) => device.port_number == port,
                    None => true,
                };
                ids.vendor_id == self.vendor_id && ids.product_id == self.product_id && on_port
            },
            None => false,
        }
    }
}

/// Finds the first device, in enumeration order, that `identity` accepts, and
/// returns its index. Devices whose descriptor could not be read are passed
/// over. Fails with `DeviceNotFound` when no device is accepted. Several
/// accepted devices are not told apart: the first one wins.
pub fn locate(identity: &DeviceIdentity, devices: &[AttachedDevice]) -> (found: Result<
    usize,
    DriverError,
>)
    ensures
        match found {
            Ok(index) => identity.first_match_at(devices@, index as int),
            Err(error) => error == DriverError::DeviceNotFound && identity.no_match(devices@),
        },
{
    let mut index: usize = 0;
    while index < devices.len()
        invariant
            index <= devices@.len(),
            forall|j: int| 0 <= j < index ==> !identity.accepts(#[trigger] devices@[j]),
        decreases devices@.len() - index,
    {
        if identity.matches(&devices[index]) {
            return Ok(index);
        }
        index = index + 1;
    }
    Err(DriverError::DeviceNotFound)
}

/// At most one index holds the first match, and none does when nothing matches.
pub proof fn lemma_first_match_is_unique(
    identity: DeviceIdentity,
    devices: Seq<AttachedDevice>,
    i: int,
    j: int,
)
    requires
        identity.first_match_at(devices, i),
    ensures
        identity.first_match_at(devices, j) ==> i == j,
        !identity.no_match(devices),
{
}

/// When exactly one attached device is accepted, that device is the one found.
pub proof fn lemma_single_match_is_found(
    identity: DeviceIdentity,
    devices: Seq<AttachedDevice>,
    only: int,
)
    requires
        0 <= only < devices.len(),
        identity.accepts(devices[only]),
        forall|j: int| 0 <= j < devices.len() && j != only ==> !identity.accepts(#[trigger] devices[j]),
    ensures
        identity.first_match_at(devices, only),
        forall|k: int| identity.first_match_at(devices, k) ==> k == only,
{
}

/// With a port asked for, a device on any other port is not accepted,
/// whatever its vendor and product.
pub proof fn lemma_port_filter_is_exact(identity: DeviceIdentity, device: AttachedDevice, port: u8)
    requires
        identity.port_number == Some(port),
        device.port_number != port,
    ensures
        !identity.accepts(device),
{
}

/// A device whose descriptor could not be read is never accepted.
pub proof fn lemma_unreadable_device_is_skipped(identity: DeviceIdentity, device: AttachedDevice)
    requires
        device.ids is None,
    ensures
        !identity.accepts(device),
{
}

} // verus!
