use vstd::prelude::*;

use crate::error::DeviceError;
use crate::probe::PropertyValue;
use crate::text::owned;

verus! {

/// The display name reported for a device whose name probe failed.
pub const UNKNOWN_DEVICE_NAME: &'static str = "Unknown Device";

/// A device as shown to the user. Identity is `uuid`; `id` is the
/// transport-local number, which may change across reconnects.
#[derive(Debug, Clone)]
pub struct DeviceInfo {
    pub name: String,
    pub id: u32,
    pub uuid: String,
}

/// A device as the multiplexing daemon enumerates it.
#[derive(Debug, Clone)]
pub struct AttachedDevice {
    pub uuid: String,
    pub id: u32,
}

/// An enumerated device together with the outcome of its name probe.
#[derive(Debug)]
pub struct ProbedDevice {
    pub uuid: String,
    pub id: u32,
    pub name: Result<PropertyValue, DeviceError>,
}

/// The name shown for a probed device: the probed string, or the fallback
/// name when the probe failed or returned another shape.
pub open spec fn shown_name(name: Result<PropertyValue, DeviceError>) -> Seq<char> {
    match name {
        Ok(PropertyValue::Text(s)) => s@,
        _ => UNKNOWN_DEVICE_NAME@,
    }
}

/// `info` is the entry reported for `d`.
pub open spec fn entry_of(d: ProbedDevice, info: DeviceInfo) -> bool {
    &&& info.uuid@ == d.uuid@
    &&& info.id == d.id
    &&& info.name@ == shown_name(d.name)
}

impl DeviceInfo {
    /// The entry reported for one enumerated device; a failed probe
    /// degrades to the fallback name instead of hiding the device.
    pub fn from_probe(d: ProbedDevice) -> (r: DeviceInfo)
        ensures
            entry_of(d, r),
    {
        let name = match d.name {
            Ok(PropertyValue::Text(s)) => s,
            _ => owned(UNKNOWN_DEVICE_NAME),
        };
        DeviceInfo { name, id: d.id, uuid: d.uuid }
    }
}

/// One entry per enumerated device, in enumeration order, whatever the
/// probes returned.
pub fn list_devices(probed: Vec<ProbedDevice>) -> (r: Vec<DeviceInfo>)
    ensures
        r.len() == probed.len(),
        forall|i: int| 0 <= i < r.len() ==> entry_of(#[trigger] probed[i], r[i]),
{
    let ghost all = probed@;
    let mut r: Vec<DeviceInfo> = Vec::new();
    for d in it: probed.into_iter()
        invariant
            it.seq() == all,
            r.len() == it.index(),
            forall|i: int| 0 <= i < r.len() ==> entry_of(#[trigger] all[i], r[i]),
    {
        r.push(DeviceInfo::from_probe(d));
    }
    r
}

/// `r` is the outcome of resolving `uuid` against `attached`: the position
/// of the first attached device with that uuid, or `DeviceNotFound`
/// naming the uuid when no attached device carries it.
pub open spec fn provider_resolution(
    attached: Seq<AttachedDevice>,
    uuid: Seq<char>,
    r: Result<usize, DeviceError>,
) -> bool {
    match r {
        Ok(i) => {
            &&& i < attached.len()
            &&& attached[i as int].uuid@ == uuid
            &&& forall|j: int| 0 <= j < i ==> attached[j].uuid@ != uuid
        },
        Err(e) => {
            &&& e matches DeviceError::DeviceNotFound(u) && u@ == uuid
            &&& forall|j: int| 0 <= j < attached.len() ==> attached[j].uuid@ != uuid
        },
    }
}

/// Re-resolves `device` against the devices currently attached, by uuid.
pub fn get_provider(attached: &Vec<AttachedDevice>, device: &DeviceInfo) -> (r: Result<
    usize,
    DeviceError,
>)
    ensures
        provider_resolution(attached@, device.uuid@, r),
{
    let mut i: usize = 0;
    while i < attached.len()
        invariant
            i <= attached.len(),
            forall|j: int| 0 <= j < i ==> attached[j].uuid@ != device.uuid@,
        decreases attached.len() - i,
    {
        if attached[i].uuid == device.uuid {
            return Ok(i);
        }
        i = i + 1;
    }
    Err(DeviceError::DeviceNotFound(device.uuid.clone()))
}

/// The device list to publish after an enumeration attempt: the listing
/// when the daemon answered, and no devices when it could not be reached.
pub fn refresh_idevice(listing: Result<Vec<ProbedDevice>, DeviceError>) -> (r: Vec<DeviceInfo>)
    ensures
        match listing {
            Ok(probed) => {
                &&& r.len() == probed.len()
                &&& forall|i: int| 0 <= i < r.len() ==> entry_of(#[trigger] probed[i], r[i])
            },
            Err(_) => r.len() == 0,
        },
{
    match listing {
        Ok(probed) => list_devices(probed),
        Err(_) => Vec::new(),
    }
}

/// A device that is not attached cannot be resolved: for every uuid that
/// no attached device carries, resolution fails with `DeviceNotFound`.
pub proof fn lemma_detached_not_found(
    attached: Seq<AttachedDevice>,
    uuid: Seq<char>,
    r: Result<usize, DeviceError>,
)
    requires
        forall|j: int| 0 <= j < attached.len() ==> attached[j].uuid@ != uuid,
        provider_resolution(attached, uuid, r),
    ensures
        r matches Err(DeviceError::DeviceNotFound(u)) && u@ == uuid,
{
}

} // verus!
