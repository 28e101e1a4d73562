//! Device locator: the matching rules that pick the physical controller
//! out of the system's enumerated input devices. The unverified glue
//! enumerates the devices and hands their properties over as plain
//! values; this module decides which entry, if any, is the device.

use vstd::prelude::*;

verus! {

/// The scratch-buffer capacity allotted for a device's interface detail;
/// entries that report a larger (or zero) requirement are skipped.
pub const DETAIL_BUFFER_CAPACITY: u32 = 4096;

/// The vendor identity of the Stadia controller.
pub const STADIA_CONTROLLER_VENDOR_ID: u16 = 0x18D1;

/// The product identity of the Stadia controller.
pub const STADIA_CONTROLLER_PRODUCT_ID: u16 = 0x9400;

/// The uppercase hexadecimal digit for a nibble.
pub open spec fn spec_hex_digit(n: u8) -> u8 {
    if n < 10 {
        (0x30 + n) as u8
    } else {
        (0x37 + n) as u8
    }
}

/// The four uppercase hexadecimal digits of a 16-bit value, most
/// significant first.
pub open spec fn spec_hex4(v: u16) -> Seq<u8> {
    seq![
        spec_hex_digit((v / 0x1000 % 16) as u8),
        spec_hex_digit((v / 0x100 % 16) as u8),
        spec_hex_digit((v / 0x10 % 16) as u8),
        spec_hex_digit((v % 16) as u8),
    ]
}

/// The hardware identifier a device with the given vendor and product
/// identity announces: the ASCII bytes of `HID\VID_xxxx&PID_xxxx` with
/// the two values in uppercase hexadecimal.
pub open spec fn spec_hardware_id(vid: u16, pid: u16) -> Seq<u8> {
    seq![0x48u8, 0x49, 0x44, 0x5c, 0x56, 0x49, 0x44, 0x5f] + spec_hex4(vid)
        + seq![0x26u8, 0x50, 0x49, 0x44, 0x5f] + spec_hex4(pid)
}

/// Converts a nibble to its uppercase hexadecimal ASCII digit.
fn hex_digit(n: u8) -> (r: u8)
    requires
        n < 16,
    ensures
        r == spec_hex_digit(n),
{
    if n < 10 {
        0x30 + n
    } else {
        0x37 + n
    }
}

/// Appends the four uppercase hexadecimal digits of `v` to `out`.
fn push_hex4(out: &mut Vec<u8>, v: u16)
    ensures
        final(out)@ == old(out)@ + spec_hex4(v),
{
    out.push(hex_digit((v / 0x1000 % 16) as u8));
    out.push(hex_digit((v / 0x100 % 16) as u8));
    out.push(hex_digit((v / 0x10 % 16) as u8));
    out.push(hex_digit((v % 16) as u8));
    proof {
        assert(out@ =~= old(out)@ + spec_hex4(v));
    }
}

/// Builds the hardware identifier expected of a device with the given
/// vendor and product identity.
pub fn expected_hardware_id(vid: u16, pid: u16) -> (r: Vec<u8>)
    ensures
        r@ == spec_hardware_id(vid, pid),
        r@.len() == 21,
{
    let mut out: Vec<u8> = Vec::new();
    out.push(0x48);  // H
    out.push(0x49);  // I
    out.push(0x44);  // D
    out.push(0x5c);  // backslash
    out.push(0x56);  // V
    out.push(0x49);  // I
    out.push(0x44);  // D
    out.push(0x5f);  // _
    push_hex4(&mut out, vid);
    out.push(0x26);  // &
    out.push(0x50);  // P
    out.push(0x49);  // I
    out.push(0x44);  // D
    out.push(0x5f);  // _
    push_hex4(&mut out, pid);
    proof {
        assert(out@ =~= spec_hardware_id(vid, pid));
    }
    out
}

/// One enumerated input device, as plain values: how large a buffer its
/// interface detail requires, the hardware identifier it announces, and
/// its raw device path.
pub struct DeviceEntry {
    pub detail_size: u32,
    pub hardware_id: Vec<u8>,
    pub path: Vec<u8>,
}

/// Folds an ASCII lowercase letter to its uppercase form; every other
/// byte is unchanged. Hardware identifiers are compared after folding,
/// which makes the hexadecimal digits case-insensitive.
pub open spec fn spec_ascii_fold(b: u8) -> u8 {
    if 0x61 <= b <= 0x7a {
        (b - 0x20) as u8
    } else {
        b
    }
}

/// Whether `data` begins with `prefix`, comparing bytes case-insensitively.
pub open spec fn spec_starts_with_folded(data: Seq<u8>, prefix: Seq<u8>) -> bool {
    &&& data.len() >= prefix.len()
    &&& forall|k: int|
        0 <= k < prefix.len() ==> spec_ascii_fold(data[k]) == spec_ascii_fold(prefix[k])
}

/// Whether an enumerated entry is the sought device: its interface
/// detail fits the allotted scratch buffer (oversized or empty entries
/// are tolerated by skipping them), and its hardware identifier starts
/// with the expected `HID\VID_xxxx&PID_xxxx` pattern, the hexadecimal
/// digits compared case-insensitively.
pub open spec fn spec_entry_matches(e: DeviceEntry, vid: u16, pid: u16) -> bool {
    &&& 0 < e.detail_size <= DETAIL_BUFFER_CAPACITY
    &&& spec_starts_with_folded(e.hardware_id@, spec_hardware_id(vid, pid))
}

/// Folds an ASCII lowercase letter to its uppercase form.
fn ascii_fold(b: u8) -> (r: u8)
    ensures
        r == spec_ascii_fold(b),
{
    if 0x61 <= b && b <= 0x7a {
        b - 0x20
    } else {
        b
    }
}

/// Whether `data` begins with `prefix`, comparing bytes case-insensitively.
fn starts_with_folded(data: &Vec<u8>, prefix: &Vec<u8>) -> (r: bool)
    ensures
        r == spec_starts_with_folded(data@, prefix@),
{
    if data.len() < prefix.len() {
        return false;
    }
    let n = prefix.len();
    let mut j: usize = 0;
    while j < n
        invariant
            j <= n,
            n == prefix@.len() <= data@.len(),
            forall|k: int| 0 <= k < j ==> spec_ascii_fold(data@[k]) == spec_ascii_fold(prefix@[k]),
        decreases n - j,
    {
        if ascii_fold(data[j]) != ascii_fold(prefix[j]) {
            return false;
        }
        j = j + 1;
    }
    true
}

/// Returns the index of the first enumerated entry that is a device with
/// the given vendor and product identity, or `None` when no entry
/// matches. Failure is never reported for "not found".
pub fn find_device_with_vid_and_pid(entries: &Vec<DeviceEntry>, vid: u16, pid: u16) -> (r: Option<
    usize,
>)
    ensures
        r matches Some(i) ==> {
            &&& i < entries@.len()
            &&& spec_entry_matches(entries@[i as int], vid, pid)
            &&& forall|j: int| 0 <= j < i ==> !spec_entry_matches(entries@[j], vid, pid)
        },
        r is None ==> forall|j: int|
            0 <= j < entries@.len() ==> !spec_entry_matches(entries@[j], vid, pid),
{
    let expected = expected_hardware_id(vid, pid);
    let mut i: usize = 0;
    while i < entries.len()
        invariant
            i <= entries@.len(),
            expected@ == spec_hardware_id(vid, pid),
            forall|j: int| 0 <= j < i ==> !spec_entry_matches(entries@[j], vid, pid),
        decreases entries@.len() - i,
    {
        let entry = &entries[i];
        if entry.detail_size > 0 && entry.detail_size <= DETAIL_BUFFER_CAPACITY
            && starts_with_folded(&entry.hardware_id, &expected) {
            return Some(i);
        }
        i = i + 1;
    }
    None
}

} // verus!
