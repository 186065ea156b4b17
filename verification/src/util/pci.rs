//! Lookup of well-known PCI vendor identifiers.

use vstd::prelude::*;

verus! {

/// The human-readable vendor name behind a PCI vendor id, with
/// `"Unknown"` for any id outside the well-known set.
pub open spec fn vendor_name(vendor_id: u16) -> Seq<char> {
    if vendor_id == 0x1002 {
        "AMD"@
    } else if vendor_id == 0x10DE {
        "Nvidia"@
    } else if vendor_id == 0x8086 {
        "Intel"@
    } else if vendor_id == 0x106B {
        "Apple"@
    } else {
        "Unknown"@
    }
}

/// Map a PCI vendor id to the vendor's human-readable name.
pub fn vendor_id_to_name(vendor_id: u16) -> (r: &'static str)
    ensures
        r@ == vendor_name(vendor_id),
{
    match vendor_id {
        0x1002 => "AMD",
        0x10DE => "Nvidia",
        0x8086 => "Intel",
        0x106B => "Apple",
        _ => "Unknown",
    }
}

} // verus!
