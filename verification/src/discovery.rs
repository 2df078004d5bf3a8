//! Device discovery decisions: which of the enumerated devices an open call
//! picks. The enumeration itself (walking the bus, reading descriptors and
//! strings) is the transport's work; these functions decide over its plain
//! results.
use vstd::prelude::*;

verus! {

/// What enumeration reported of one candidate device.
pub struct CandidateDevice {
    /// Vendor id of the device descriptor.
    pub id_vendor: u16,
    /// Product id of the device descriptor.
    pub id_product: u16,
    /// The product-description string, where one could be fetched.
    pub product_description: Option<String>,
    /// The serial-number string, where one could be fetched.
    pub serial: Option<String>,
}

/// The character sequence of an optional string.
pub open spec fn spec_opt_string_view(o: Option<String>) -> Option<Seq<char>> {
    match o {
        Some(s) => Some(s@),
        None => None::<Seq<char>>,
    }
}

/// Whether a candidate passes the open filters: the vendor/product filter
/// applies when both ids are non-zero, and the description and serial
/// filters apply when the filter string is supplied and the device reported
/// one to compare against.
pub open spec fn spec_candidate_matches(
    c: CandidateDevice,
    vendor: u16,
    product: u16,
    description: Option<String>,
    serial: Option<String>,
) -> bool {
    &&& (vendor > 0 && product > 0) ==> (c.id_vendor == vendor && c.id_product == product)
    &&& match (spec_opt_string_view(description), spec_opt_string_view(c.product_description)) {
        (Some(want), Some(have)) => want == have,
        _ => true,
    }
    &&& match (spec_opt_string_view(serial), spec_opt_string_view(c.serial)) {
        (Some(want), Some(have)) => want == have,
        _ => true,
    }
}

/// How many of the candidates pass the filters.
pub open spec fn spec_count_matches(
    cands: Seq<CandidateDevice>,
    vendor: u16,
    product: u16,
    description: Option<String>,
    serial: Option<String>,
) -> int
    decreases cands.len(),
{
    if cands.len() == 0 {
        0
    } else {
        spec_count_matches(cands.drop_last(), vendor, product, description, serial) + if
            spec_candidate_matches(cands.last(), vendor, product, description, serial) {
            1int
        } else {
            0int
        }
    }
}

/// Whether a candidate passes the open filters.
pub fn candidate_matches(
    c: &CandidateDevice,
    vendor: u16,
    product: u16,
    description: &Option<String>,
    serial: &Option<String>,
) -> (r: bool)
    ensures
        r == spec_candidate_matches(*c, vendor, product, *description, *serial),
{
    if vendor > 0 && product > 0 {
        if c.id_vendor != vendor || c.id_product != product {
            return false;
        }
    }
    match (description, &c.product_description) {
        (Some(want), Some(have)) => {
            if !want.eq(have) {
                return false;
            }
        },
        _ => {},
    }
    match (serial, &c.serial) {
        (Some(want), Some(have)) => {
            if !want.eq(have) {
                return false;
            }
        },
        _ => {},
    }
    true
}

/// Picks the `index`-th (0-based) candidate that passes the open filters:
/// vendor/product ids when both are non-zero, then description and serial
/// strings when supplied. `None` when fewer than `index + 1` candidates
/// match.
pub fn ftdi_usb_open_desc_index_select(
    candidates: &Vec<CandidateDevice>,
    vendor: u16,
    product: u16,
    description: &Option<String>,
    serial: &Option<String>,
    index: usize,
) -> (r: Option<usize>)
    ensures
        match r {
            Some(i) => {
                &&& i < candidates@.len()
                &&& spec_candidate_matches(
                    candidates@[i as int],
                    vendor,
                    product,
                    *description,
                    *serial,
                )
                &&& spec_count_matches(
                    candidates@.take(i as int),
                    vendor,
                    product,
                    *description,
                    *serial,
                ) == index
            },
            None => spec_count_matches(candidates@, vendor, product, *description, *serial)
                <= index,
        },
{
    let n = candidates.len();
    let mut i: usize = 0;
    let mut seen: usize = 0;
    proof {
        assert(candidates@.take(0) =~= Seq::<CandidateDevice>::empty());
    }
    while i < n
        invariant
            i <= n,
            n == candidates@.len(),
            seen <= index,
            seen == spec_count_matches(
                candidates@.take(i as int),
                vendor,
                product,
                *description,
                *serial,
            ),
        decreases n - i,
    {
        let c = &candidates[i];
        let is_match = candidate_matches(c, vendor, product, description, serial);
        proof {
            assert(candidates@.take(i + 1).drop_last() =~= candidates@.take(i as int));
            assert(candidates@.take(i + 1).last() == candidates@[i as int]);
        }
        if is_match {
            if seen == index {
                return Some(i);
            }
            seen = seen + 1;
        }
        i = i + 1;
    }
    proof {
        assert(candidates@.take(n as int) =~= candidates@);
    }
    None
}

/// The bus number and device address of one enumerated device.
#[derive(Clone, Copy, PartialEq, Eq, Structural, Debug)]
pub struct DeviceLocation {
    pub bus_number: u16,
    pub device_address: u16,
}

/// Picks the first enumerated device sitting at the given bus number and
/// device address; `None` when no device does.
pub fn ftdi_usb_open_bus_addr_select(
    devices: &Vec<DeviceLocation>,
    bus_number: u16,
    device_address: u16,
) -> (r: Option<usize>)
    ensures
        match r {
            Some(i) => {
                &&& i < devices@.len()
                &&& devices@[i as int] == (DeviceLocation { bus_number, device_address })
                &&& forall|j: int|
                    0 <= j < i ==> devices@[j] != (DeviceLocation { bus_number, device_address })
            },
            None => forall|j: int|
                0 <= j < devices@.len() ==> devices@[j] != (DeviceLocation {
                    bus_number,
                    device_address,
                }),
        },
{
    let n = devices.len();
    let mut i: usize = 0;
    while i < n
        invariant
            i <= n,
            n == devices@.len(),
            forall|j: int|
                0 <= j < i ==> devices@[j] != (DeviceLocation { bus_number, device_address }),
        decreases n - i,
    {
        let d = devices[i];
        if d.bus_number == bus_number && d.device_address == device_address {
            return Some(i);
        }
        i = i + 1;
    }
    None
}

} // verus!
