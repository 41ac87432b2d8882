//! The choices made around a device: which one to open, which ones to list,
//! how a report travels, and what is done to the control interface.

use crate::model::KeyboardModel;
use crate::text::{same_text, to_chars};
use crate::types::DeviceInfo;
use vstd::prelude::*;

verus! {

/// The USB interface that takes the lighting reports.
pub const CONTROL_INTERFACE: u8 = 1;

/// The HID class request that carries a report to the device.
pub const SET_REPORT: u8 = 0x09;

/// How long a report may take on its way, in milliseconds.
pub const SEND_TIMEOUT_MILLIS: u64 = 2000;

/// A wanted id is met: by the same id, and `0` by any.
pub open spec fn spec_id_matches(wanted: u16, id: u16) -> bool {
    wanted == 0 || wanted == id
}

/// A device is the one asked for: a known model with the wanted ids and,
/// where one is wanted, the wanted serial number.
pub open spec fn spec_device_matches(
    info: DeviceInfo,
    vendor_id: u16,
    product_id: u16,
    serial: Option<Seq<char>>,
) -> bool {
    &&& info.model != KeyboardModel::Unknown
    &&& spec_id_matches(vendor_id, info.vendor_id)
    &&& spec_id_matches(product_id, info.product_id)
    &&& match serial {
        Some(wanted) => info.serial_number matches Some(found) && found@ == wanted,
        None => true,
    }
}

/// The serial number asked for, as a mathematical value.
pub open spec fn serial_view(serial: Option<&str>) -> Option<Seq<char>> {
    match serial {
        Some(text) => Some(text@),
        None => None,
    }
}

fn device_matches(
    info: &DeviceInfo,
    vendor_id: u16,
    product_id: u16,
    serial: Option<&str>,
) -> (matches: bool)
    ensures
        matches == spec_device_matches(*info, vendor_id, product_id, serial_view(serial)),
{
    if info.model == KeyboardModel::Unknown {
        return false;
    }
    if vendor_id != 0 && info.vendor_id != vendor_id {
        return false;
    }
    if product_id != 0 && info.product_id != product_id {
        return false;
    }
    match serial {
        Some(wanted) => match &info.serial_number {
            Some(found) => {
                let found = to_chars(found.as_str());
                let wanted = to_chars(wanted);
                same_text(found.as_slice(), wanted.as_slice())
            },
            None => false,
        },
        None => true,
    }
}

/// Picks the device to open: the first of the list that is the one asked
/// for. `None` where the list holds no such device.
pub fn select_device(
    devices: &[DeviceInfo],
    vendor_id: u16,
    product_id: u16,
    serial: Option<&str>,
) -> (index: Option<usize>)
    ensures
        match index {
            Some(i) => {
                &&& i < devices@.len()
                &&& spec_device_matches(
                    devices@[i as int],
                    vendor_id,
                    product_id,
                    serial_view(serial),
                )
                &&& forall|j: int|
                    0 <= j < i ==> !spec_device_matches(
                        #[trigger] devices@[j],
                        vendor_id,
                        product_id,
                        serial_view(serial),
                    )
            },
            None => forall|j: int|
                0 <= j < devices@.len() ==> !spec_device_matches(
                    #[trigger] devices@[j],
                    vendor_id,
                    product_id,
                    serial_view(serial),
                ),
        },
{
    let mut i: usize = 0;
    while i < devices.len()
        invariant
            i <= devices.len(),
            forall|j: int|
                0 <= j < i ==> !spec_device_matches(
                    #[trigger] devices@[j],
                    vendor_id,
                    product_id,
                    serial_view(serial),
                ),
        decreases devices.len() - i,
    {
        if device_matches(&devices[i], vendor_id, product_id, serial) {
            return Some(i);
        }
        i += 1;
    }
    None
}

/// Two devices report the same serial number.
pub open spec fn spec_same_serial(a: DeviceInfo, b: DeviceInfo) -> bool {
    a.serial_number matches Some(first) && b.serial_number matches Some(second) && first@
        == second@
}

/// A device of a list is shown in a listing: one without a serial number
/// always, any other unless a device before it has its serial number.
pub open spec fn spec_listed(devices: Seq<DeviceInfo>, index: int) -> bool {
    forall|j: int| 0 <= j < index ==> !spec_same_serial(#[trigger] devices[j], devices[index])
}

fn same_serial(a: &DeviceInfo, b: &DeviceInfo) -> (same: bool)
    ensures
        same == spec_same_serial(*a, *b),
{
    match (&a.serial_number, &b.serial_number) {
        (Some(first), Some(second)) => {
            let first = to_chars(first.as_str());
            let second = to_chars(second.as_str());
            same_text(first.as_slice(), second.as_slice())
        },
        _ => false,
    }
}

/// The devices to show in a listing, by their places in the list and in its
/// order: each serial number once.
pub fn listed_devices(devices: &[DeviceInfo]) -> (listed: Vec<usize>)
    ensures
        forall|k: int|
            0 <= k < listed@.len() ==> (#[trigger] listed@[k]) < devices@.len() && spec_listed(
                devices@,
                listed@[k] as int,
            ),
        forall|k: int, l: int| 0 <= k < l < listed@.len() ==> listed@[k] < listed@[l],
        forall|i: int|
            0 <= i < devices@.len() && spec_listed(devices@, i) ==> listed@.contains(i as usize),
{
    let mut listed: Vec<usize> = Vec::new();
    let mut i: usize = 0;
    while i < devices.len()
        invariant
            i <= devices.len(),
            forall|k: int|
                0 <= k < listed@.len() ==> (#[trigger] listed@[k]) < i && spec_listed(
                    devices@,
                    listed@[k] as int,
                ),
            forall|k: int, l: int| 0 <= k < l < listed@.len() ==> listed@[k] < listed@[l],
            forall|m: int| 0 <= m < i && spec_listed(devices@, m) ==> listed@.contains(m as usize),
        decreases devices.len() - i,
    {
        let mut seen = false;
        let mut j: usize = 0;
        while j < i && !seen
            invariant
                j <= i < devices.len(),
                seen ==> !spec_listed(devices@, i as int),
                !seen ==> forall|m: int|
                    0 <= m < j ==> !spec_same_serial(#[trigger] devices@[m], devices@[i as int]),
            decreases i - j + (if seen { 0int } else { 1int }),
        {
            if same_serial(&devices[j], &devices[i]) {
                seen = true;
            } else {
                j += 1;
            }
        }
        let ghost before = listed@;
        if !seen {
            listed.push(i);
            assert(listed@[before.len() as int] == i);
        }
        assert forall|m: int| 0 <= m < i + 1 && spec_listed(devices@, m) implies listed@.contains(
            m as usize,
        ) by {
            if m < i {
                assert(before.contains(m as usize));
                let k = choose|k: int| 0 <= k < before.len() && before[k] == m as usize;
                assert(listed@[k] == m as usize);
            }
        }
        i += 1;
    }
    listed
}

/// The value field of the request that carries a report: output report
/// `0x12` for a report of more than 20 bytes, `0x11` for any other.
pub open spec fn spec_report_value(len: nat) -> u16 {
    if len > 20 {
        0x0212
    } else {
        0x0211
    }
}

/// The value field of the request that carries a report of `len` bytes.
pub fn report_value(len: usize) -> (value: u16)
    ensures
        value == spec_report_value(len as nat),
{
    if len > 20 {
        0x0212
    } else {
        0x0211
    }
}

/// A buffer has a length that the device takes: up to 20 bytes, or 64.
pub open spec fn spec_sendable(len: nat) -> bool {
    len <= 20 || len == 64
}

/// Whether a buffer of `len` bytes may go to the device.
pub fn sendable(len: usize) -> (ok: bool)
    ensures
        ok == spec_sendable(len as nat),
{
    len <= 20 || len == 64
}

/// The index of a string that a device offers: any but zero.
pub fn string_index(index: Option<u8>) -> (offered: Option<u8>)
    ensures
        offered == (match index {
            Some(i) if i > 0 => Some(i),
            _ => None,
        }),
{
    match index {
        Some(i) if i > 0 => Some(i),
        _ => None,
    }
}

/// One thing done to the control interface of a device.
#[derive(Clone, Copy, Debug, PartialEq, Eq, Structural)]
pub enum InterfaceStep {
    DetachKernelDriver,
    ClaimInterface,
    ReleaseInterface,
    AttachKernelDriver,
}

/// What is done to take the control interface: the kernel driver is taken
/// off where one is active, then the interface is claimed.
pub open spec fn spec_claim_steps(driver_active: bool) -> Seq<InterfaceStep> {
    if driver_active {
        seq![InterfaceStep::DetachKernelDriver, InterfaceStep::ClaimInterface]
    } else {
        seq![InterfaceStep::ClaimInterface]
    }
}

/// The steps that take the control interface.
pub fn claim_steps(driver_active: bool) -> (steps: Vec<InterfaceStep>)
    ensures
        steps@ == spec_claim_steps(driver_active),
{
    if driver_active {
        vec![InterfaceStep::DetachKernelDriver, InterfaceStep::ClaimInterface]
    } else {
        vec![InterfaceStep::ClaimInterface]
    }
}

/// What is done to give the control interface back: the interface is
/// released, then the kernel driver is put back where it was taken off.
pub open spec fn spec_release_steps(kernel_detached: bool) -> Seq<InterfaceStep> {
    if kernel_detached {
        seq![InterfaceStep::ReleaseInterface, InterfaceStep::AttachKernelDriver]
    } else {
        seq![InterfaceStep::ReleaseInterface]
    }
}

/// The steps that give the control interface back.
pub fn release_steps(kernel_detached: bool) -> (steps: Vec<InterfaceStep>)
    ensures
        steps@ == spec_release_steps(kernel_detached),
{
    if kernel_detached {
        vec![InterfaceStep::ReleaseInterface, InterfaceStep::AttachKernelDriver]
    } else {
        vec![InterfaceStep::ReleaseInterface]
    }
}

} // verus!
