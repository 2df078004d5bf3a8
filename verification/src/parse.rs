//! Parsing of compact textual device selectors, as given on a command line:
//! `d:<bus>/<address>`, `i:<vendor>:<product>[:<index>]` and
//! `s:<vendor>:<product>:<serial>`. Numeric fields accept decimal,
//! `0x`-prefixed hexadecimal and `0o`-prefixed octal.
use vstd::prelude::*;
use crate::error::FtdiError;
use crate::error::FtdiErrorKind;

verus! {

/// The value of one digit character under a radix, or -1 where the
/// character is no digit of that radix.
pub open spec fn spec_digit_value(c: char, radix: int) -> int {
    let d = if '0' <= c && c <= '9' {
        c as int - '0' as int
    } else if 'a' <= c && c <= 'f' {
        c as int - 'a' as int + 10
    } else if 'A' <= c && c <= 'F' {
        c as int - 'A' as int + 10
    } else {
        -1
    };
    if 0 <= d && d < radix {
        d
    } else {
        -1
    }
}

/// Left-to-right accumulation of a digit string: `None` on the first
/// non-digit, otherwise the accumulated value.
pub open spec fn spec_parse_num(s: Seq<char>, radix: int, acc: int) -> Option<int>
    decreases s.len(),
{
    if s.len() == 0 {
        Some(acc)
    } else if spec_digit_value(s[0], radix) == -1 {
        None::<int>
    } else {
        spec_parse_num(s.skip(1), radix, acc * radix + spec_digit_value(s[0], radix))
    }
}

/// The numeric value of a digit string: `None` when it is empty or holds a
/// non-digit.
pub open spec fn spec_parse_radix(s: Seq<char>, radix: int) -> Option<int> {
    if s.len() == 0 {
        None::<int>
    } else {
        spec_parse_num(s, radix, 0)
    }
}

/// The radix a field selects by its prefix, and the digits that remain:
/// `0x` selects 16, `0o` selects 8, anything else is decimal.
pub open spec fn spec_field_digits(s: Seq<char>) -> (int, Seq<char>) {
    if s.len() >= 2 && s[0] == '0' && s[1] == 'x' {
        (16int, s.skip(2))
    } else if s.len() >= 2 && s[0] == '0' && s[1] == 'o' {
        (8int, s.skip(2))
    } else {
        (10int, s)
    }
}

/// The error code of a failed field parse, by the radix the prefix selected.
pub open spec fn spec_field_error_code(radix: int) -> i32 {
    if radix == 16 {
        -15i32
    } else if radix == 8 {
        -16i32
    } else {
        -17i32
    }
}

/// One numeric field parsed to a 16-bit value: the radix prefix is
/// stripped, the digits accumulated, and a value that is malformed or does
/// not fit 16 bits fails with the radix's error code.
pub open spec fn spec_parse_field_u16(s: Seq<char>) -> Result<u16, i32> {
    let (radix, digits) = spec_field_digits(s);
    match spec_parse_radix(digits, radix) {
        Some(v) => if v <= 0xFFFF {
            Ok(v as u16)
        } else {
            Err(spec_field_error_code(radix))
        },
        None => Err(spec_field_error_code(radix)),
    }
}

/// Index of the first occurrence of a character, or -1 when it does not
/// occur.
pub open spec fn spec_find_char(s: Seq<char>, sep: char) -> int
    decreases s.len(),
{
    if s.len() == 0 {
        -1
    } else if s[0] == sep {
        0
    } else {
        let r = spec_find_char(s.skip(1), sep);
        if r == -1 {
            -1
        } else {
            r + 1
        }
    }
}

/// What `spec_find_char` returns: -1 exactly when the character does not
/// occur, and otherwise the position of its first occurrence.
pub proof fn lemma_find_char_characterization(s: Seq<char>, sep: char)
    ensures
        spec_find_char(s, sep) == -1 ==> forall|j: int| 0 <= j < s.len() ==> s[j] != sep,
        spec_find_char(s, sep) >= 0 ==> {
            let f = spec_find_char(s, sep);
            &&& f < s.len()
            &&& s[f] == sep
            &&& forall|j: int| 0 <= j < f ==> s[j] != sep
        },
        -1 <= spec_find_char(s, sep) < s.len(),
    decreases s.len(),
{
    if s.len() == 0 {
    } else if s[0] == sep {
    } else {
        lemma_find_char_characterization(s.skip(1), sep);
        let r = spec_find_char(s.skip(1), sep);
        assert(forall|j: int| 0 <= j < s.skip(1).len() ==> s.skip(1)[j] == s[j + 1]);
        if r == -1 {
            assert(forall|j: int| 1 <= j < s.len() ==> s[j] == s.skip(1)[j - 1]);
        } else {
            assert(s[r + 1] == s.skip(1)[r]);
            assert(forall|j: int| 1 <= j < r + 1 ==> s[j] == s.skip(1)[j - 1]);
        }
    }
}

/// The fields of a string split at a separator character; a string without
/// the separator is one field, and each separator ends a field.
pub open spec fn spec_split_char(s: Seq<char>, sep: char) -> Seq<Seq<char>>
    decreases s.len(),
{
    let i = spec_find_char(s, sep);
    if i < 0 || i >= s.len() {
        seq![s]
    } else {
        seq![s.take(i)] + spec_split_char(s.skip(i + 1), sep)
    }
}

/// A run of numeric selector fields, in order: every field must parse as a
/// 16-bit number, and the first malformed field's error code is the result.
pub open spec fn spec_numeric_fields(fields: Seq<Seq<char>>) -> Result<Seq<u16>, i32>
    decreases fields.len(),
{
    if fields.len() == 0 {
        Ok(Seq::<u16>::empty())
    } else {
        match spec_parse_field_u16(fields[0]) {
            Ok(v) => match spec_numeric_fields(fields.skip(1)) {
                Ok(rest) => Ok(seq![v] + rest),
                Err(code) => Err(code),
            },
            Err(code) => Err(code),
        }
    }
}

/// Law: a run of numeric fields that parses yields exactly one value per
/// field — none is passed over.
pub proof fn lemma_numeric_fields_length(fields: Seq<Seq<char>>)
    ensures
        spec_numeric_fields(fields) matches Ok(v) ==> v.len() == fields.len(),
    decreases fields.len(),
{
    if fields.len() == 0 {
    } else {
        lemma_numeric_fields_length(fields.skip(1));
    }
}

/// The outcome of `parse_vendor_product_index`: a string that is empty or
/// has no `:` is rejected outright; fewer than three or more than four
/// colon-separated fields are out of range; otherwise the leading selector
/// field is dropped and every remaining field parses as a number, in order.
pub open spec fn spec_parse_vpi(s: Seq<char>) -> Result<Seq<u16>, i32> {
    if s.len() == 0 || spec_find_char(s, ':') == -1 {
        Err(-11i32)
    } else {
        let fields = spec_split_char(s, ':');
        if fields.len() <= 2 {
            Err(-12i32)
        } else if fields.len() >= 5 {
            Err(-14i32)
        } else {
            spec_numeric_fields(fields.skip(1))
        }
    }
}

/// Law: a selector that parses yields one value per field after the
/// selector letter: the letter is dropped, all numeric fields are kept.
pub proof fn lemma_parse_vpi_length(s: Seq<char>)
    ensures
        spec_parse_vpi(s) matches Ok(v) ==> v.len() == spec_split_char(s, ':').len() - 1,
{
    if s.len() != 0 && spec_find_char(s, ':') != -1 {
        let fields = spec_split_char(s, ':');
        if 2 < fields.len() < 5 {
            lemma_numeric_fields_length(fields.skip(1));
        }
    }
}

/// The value of one digit character under a radix, or `None` where the
/// character is no digit of that radix.
fn digit_value(c: char, radix: u32) -> (r: Option<u32>)
    requires
        radix == 8 || radix == 10 || radix == 16,
    ensures
        match r {
            Some(d) => spec_digit_value(c, radix as int) == d as int && d < radix,
            None => spec_digit_value(c, radix as int) == -1,
        },
{
    let d: u32 = if c >= '0' && c <= '9' {
        c as u32 - '0' as u32
    } else if c >= 'a' && c <= 'f' {
        c as u32 - 'a' as u32 + 10
    } else if c >= 'A' && c <= 'F' {
        c as u32 - 'A' as u32 + 10
    } else {
        return None;
    };
    if d < radix {
        Some(d)
    } else {
        None
    }
}

/// A parse that continues from an accumulated value can only grow it.
proof fn lemma_parse_num_monotonic(s: Seq<char>, radix: int, acc: int)
    requires
        radix >= 2,
        acc >= 0,
    ensures
        spec_parse_num(s, radix, acc) is Some ==> spec_parse_num(s, radix, acc)->Some_0 >= acc,
    decreases s.len(),
{
    if s.len() == 0 {
    } else if spec_digit_value(s[0], radix) == -1 {
    } else {
        let d = spec_digit_value(s[0], radix);
        assert(acc * radix >= acc) by (nonlinear_arith)
            requires
                acc >= 0,
                radix >= 2,
        ;
        lemma_parse_num_monotonic(s.skip(1), radix, acc * radix + d);
    }
}

/// Parses the digits of `s` from position `start` on under the given radix
/// into a 16-bit value; `None` when the digits are empty, malformed or too
/// large for 16 bits.
fn parse_radix_u16(s: &str, start: usize, radix: u32) -> (r: Option<u16>)
    requires
        radix == 8 || radix == 10 || radix == 16,
        start <= s@.len(),
    ensures
        match r {
            Some(v) => spec_parse_radix(s@.skip(start as int), radix as int) == Some(v as int),
            None => match spec_parse_radix(s@.skip(start as int), radix as int) {
                Some(v) => v > 0xFFFF,
                None => true,
            },
        },
{
    let n = s.unicode_len();
    if start == n {
        return None;
    }
    let mut acc: u32 = 0;
    let mut i: usize = start;
    while i < n
        invariant
            radix == 8 || radix == 10 || radix == 16,
            start <= i <= n,
            n == s@.len(),
            acc <= 0xFFFF,
            spec_parse_num(s@.skip(start as int), radix as int, 0) == spec_parse_num(
                s@.skip(i as int),
                radix as int,
                acc as int,
            ),
        decreases n - i,
    {
        let c = s.get_char(i);
        proof {
            assert(s@.skip(i as int)[0] == s@[i as int]);
            assert(s@.skip(i as int).skip(1) =~= s@.skip(i + 1));
        }
        let d = match digit_value(c, radix) {
            Some(d) => d,
            None => {
                return None;
            },
        };
        proof {
            assert(acc * radix + d < 0x200000) by (nonlinear_arith)
                requires
                    acc <= 0xFFFF,
                    radix <= 16,
                    d <= 16,
            ;
        }
        let next: u32 = acc * radix + d;
        if next > 0xFFFF {
            proof {
                lemma_parse_num_monotonic(s@.skip(i + 1), radix as int, next as int);
            }
            return None;
        }
        acc = next;
        i = i + 1;
    }
    proof {
        assert(s@.skip(n as int) =~= Seq::<char>::empty());
    }
    Some(acc as u16)
}

/// Parses one numeric selector field: a `0x` prefix selects hexadecimal, a
/// `0o` prefix octal, anything else decimal. A malformed or too-large field
/// fails with the radix's error code.
pub fn parse_field_u16(s: &str) -> (r: Result<u16, FtdiError>)
    ensures
        match spec_parse_field_u16(s@) {
            Ok(v) => r == Ok::<u16, FtdiError>(v),
            Err(code) => r == Err::<u16, FtdiError>(
                FtdiError { kind: FtdiErrorKind::UsbCommonError, code },
            ),
        },
{
    let n = s.unicode_len();
    let (radix, start): (u32, usize) = if n >= 2 && s.get_char(0) == '0' && s.get_char(1) == 'x' {
        (16, 2)
    } else if n >= 2 && s.get_char(0) == '0' && s.get_char(1) == 'o' {
        (8, 2)
    } else {
        (10, 0)
    };
    proof {
        if start == 0 {
            assert(s@.skip(0) =~= s@);
        }
    }
    match parse_radix_u16(s, start, radix) {
        Some(v) => Ok(v),
        None => {
            let code: i32 = if radix == 16 {
                -15
            } else if radix == 8 {
                -16
            } else {
                -17
            };
            Err(FtdiError::usb_common(code))
        },
    }
}

/// Position of the first `sep` in `s` at or after `from`.
fn find_char_from(s: &str, sep: char, from: usize) -> (r: Option<usize>)
    requires
        from <= s@.len(),
    ensures
        match r {
            Some(i) => from <= i < s@.len() && spec_find_char(s@.skip(from as int), sep) == i
                - from,
            None => spec_find_char(s@.skip(from as int), sep) == -1,
        },
{
    let n = s.unicode_len();
    let mut i = from;
    while i < n
        invariant
            from <= i <= n,
            n == s@.len(),
            forall|j: int| from <= j < i ==> s@[j] != sep,
        decreases n - i,
    {
        if s.get_char(i) == sep {
            proof {
                let rest = s@.skip(from as int);
                lemma_find_char_characterization(rest, sep);
                let f = spec_find_char(rest, sep);
                assert(forall|j: int| 0 <= j < rest.len() ==> rest[j] == s@[j + from]);
                assert(rest[i - from] == s@[i as int]);
                if f == -1 {
                    assert(rest[i - from] != sep);
                    assert(false);
                } else if f < i - from {
                    assert(rest[f] == s@[f + from]);
                    assert(false);
                } else if f > i - from {
                    assert(rest[i - from] != sep);
                    assert(false);
                }
            }
            return Some(i);
        }
        i = i + 1;
    }
    proof {
        let rest = s@.skip(from as int);
        lemma_find_char_characterization(rest, sep);
        let f = spec_find_char(rest, sep);
        assert(forall|j: int| 0 <= j < rest.len() ==> rest[j] == s@[j + from]);
        if f >= 0 {
            assert(rest[f] == s@[f + from]);
            assert(false);
        }
    }
    None
}

/// Splits a string into its colon-separated fields.
fn split_colon(s: &str) -> (fields: Vec<String>)
    ensures
        fields@.map_values(|f: String| f@) == spec_split_char(s@, ':'),
        fields@.len() >= 1,
    decreases s@.len(),
{
    let n = s.unicode_len();
    proof {
        assert(s@.skip(0) =~= s@);
        lemma_find_char_characterization(s@, ':');
    }
    match find_char_from(s, ':', 0) {
        None => {
            let mut fields: Vec<String> = Vec::new();
            fields.push(String::from_str(s));
            proof {
                assert(fields@.map_values(|f: String| f@) =~= seq![s@]);
            }
            fields
        },
        Some(i) => {
            let head = s.substring_char(0, i);
            let rest = s.substring_char(i + 1, n);
            let mut fields: Vec<String> = Vec::new();
            fields.push(String::from_str(head));
            let mut tail_fields = split_colon(rest);
            fields.append(&mut tail_fields);
            proof {
                assert(head@ =~= s@.take(i as int));
                assert(rest@ =~= s@.skip(i + 1));
                assert(fields@.map_values(|f: String| f@) =~= seq![s@.take(i as int)]
                    + spec_split_char(s@.skip(i + 1), ':'));
            }
            fields
        },
    }
}

/// Parses the fields from position `k` on, each as a 16-bit number.
fn numeric_fields_from(fields: &Vec<String>, k: usize) -> (r: Result<Vec<u16>, FtdiError>)
    requires
        k <= fields@.len(),
    ensures
        match spec_numeric_fields(fields@.map_values(|f: String| f@).skip(k as int)) {
            Ok(vals) => r is Ok && r->Ok_0@ == vals,
            Err(code) => r == Err::<Vec<u16>, FtdiError>(
                FtdiError { kind: FtdiErrorKind::UsbCommonError, code },
            ),
        },
    decreases fields@.len() - k,
{
    let ghost views = fields@.map_values(|f: String| f@);
    proof {
        assert(views.skip(k as int).len() == views.len() - k);
    }
    if k == fields.len() {
        proof {
            assert(views.skip(k as int) =~= Seq::<Seq<char>>::empty());
        }
        return Ok(Vec::new());
    }
    let field: &String = &fields[k];
    let field_str: &str = field.as_str();
    proof {
        assert(views.skip(k as int)[0] == views[k as int]);
        assert(views.skip(k as int).skip(1) =~= views.skip(k + 1));
    }
    match parse_field_u16(field_str) {
        Ok(v) => {
            match numeric_fields_from(fields, k + 1) {
                Ok(rest) => {
                    let mut out: Vec<u16> = Vec::new();
                    out.push(v);
                    let mut rest = rest;
                    out.append(&mut rest);
                    proof {
                        assert(out@ =~= seq![v] + spec_numeric_fields(views.skip(k + 1))->Ok_0);
                    }
                    Ok(out)
                },
                Err(e) => Err(e),
            }
        },
        Err(e) => Err(e),
    }
}

/// A parsed device selector: which attached device an open call shall pick.
#[derive(Debug)]
pub enum DeviceSelector {
    /// `d:<bus>/<address>`: the device at a USB bus number and device
    /// address.
    BusAddress { bus: u16, address: u16 },
    /// `i:<vendor>:<product>[:<index>]`: the index-th device with the given
    /// vendor and product ids (index 0 when absent).
    VendorProduct { vendor: u16, product: u16, index: u16 },
    /// `s:<vendor>:<product>:<serial>`: the device with the given vendor
    /// and product ids whose serial string matches.
    VendorProductSerial { vendor: u16, product: u16, serial: String },
}

/// The mathematical shape of a parsed selector, with the serial as a
/// character sequence.
pub enum SpecSelector {
    BusAddress { bus: u16, address: u16 },
    VendorProduct { vendor: u16, product: u16, index: u16 },
    VendorProductSerial { vendor: u16, product: u16, serial: Seq<char> },
}

impl DeviceSelector {
    /// The selector's mathematical shape.
    pub open spec fn spec_view(&self) -> SpecSelector {
        match self {
            DeviceSelector::BusAddress { bus, address } => SpecSelector::BusAddress {
                bus: *bus,
                address: *address,
            },
            DeviceSelector::VendorProduct { vendor, product, index } => (
            SpecSelector::VendorProduct { vendor: *vendor, product: *product, index: *index }),
            DeviceSelector::VendorProductSerial { vendor, product, serial } => (
            SpecSelector::VendorProductSerial {
                vendor: *vendor,
                product: *product,
                serial: serial@,
            }),
        }
    }
}

/// What a selector string means. A string that is empty, has no `:`, starts
/// with an unknown letter or is shaped wrongly for its letter is a format
/// error; the field counts and numeric fields follow the rules of
/// `spec_parse_vpi` and `spec_parse_field_u16`.
pub open spec fn spec_parse_selector(s: Seq<char>) -> Result<SpecSelector, i32> {
    if s.len() == 0 || spec_find_char(s, ':') == -1 {
        Err(-11i32)
    } else if s[0] == 'd' {
        if s[1] != ':' {
            Err(-11i32)
        } else {
            let rest = s.skip(2);
            let j = spec_find_char(rest, '/');
            if j < 0 {
                Err(-11i32)
            } else {
                match spec_parse_field_u16(rest.take(j)) {
                    Ok(bus) => match spec_parse_field_u16(rest.skip(j + 1)) {
                        Ok(address) => Ok(SpecSelector::BusAddress { bus, address }),
                        Err(_) => Err(-11i32),
                    },
                    Err(_) => Err(-11i32),
                }
            }
        }
    } else if s[0] == 'i' {
        match spec_parse_vpi(s) {
            Ok(vals) => if vals.len() == 2 {
                Ok(SpecSelector::VendorProduct { vendor: vals[0], product: vals[1], index: 0u16 })
            } else if vals.len() == 3 {
                Ok(
                    SpecSelector::VendorProduct {
                        vendor: vals[0],
                        product: vals[1],
                        index: vals[2],
                    },
                )
            } else {
                Err(-11i32)
            },
            Err(code) => Err(code),
        }
    } else if s[0] == 's' {
        let fields = spec_split_char(s, ':');
        if fields.len() <= 3 {
            Err(-12i32)
        } else if fields.len() >= 5 {
            Err(-14i32)
        } else {
            match spec_parse_field_u16(fields[1]) {
                Ok(vendor) => match spec_parse_field_u16(fields[2]) {
                    Ok(product) => Ok(
                        SpecSelector::VendorProductSerial { vendor, product, serial: fields[3] },
                    ),
                    Err(code) => Err(code),
                },
                Err(code) => Err(code),
            }
        }
    } else {
        Err(-11i32)
    }
}

/// Parses a device-selector string (`d:<bus>/<address>`,
/// `i:<vendor>:<product>[:<index>]` or `s:<vendor>:<product>:<serial>`)
/// into the device selection it denotes. An empty string, a string without
/// `:`, an unknown leading letter or an out-of-range field count fails with
/// the matching format-error code.
pub fn parse_device_selector(description: &str) -> (r: Result<DeviceSelector, FtdiError>)
    ensures
        match spec_parse_selector(description@) {
            Ok(sel) => r is Ok && r->Ok_0.spec_view() == sel,
            Err(code) => r == Err::<DeviceSelector, FtdiError>(
                FtdiError { kind: FtdiErrorKind::UsbCommonError, code },
            ),
        },
{
    let n = description.unicode_len();
    let has_colon = match find_char_from(description, ':', 0) {
        Some(_) => true,
        None => false,
    };
    proof {
        assert(description@.skip(0) =~= description@);
    }
    if n == 0 || !has_colon {
        return Err(FtdiError::usb_common(-11));
    }
    let c0 = description.get_char(0);
    if c0 == 'd' {
        // d:<bus>/<address>, the bus number and device address within the
        // USB device tree. The string holds a ':' that is not its first
        // character, so it is at least two characters long.
        proof {
            lemma_find_char_characterization(description@, ':');
        }
        if description.get_char(1) != ':' {
            return Err(FtdiError::usb_common(-11));
        }
        let rest = description.substring_char(2, n);
        proof {
            assert(rest@ =~= description@.skip(2));
        }
        let rlen = rest.unicode_len();
        let j = match find_char_from(rest, '/', 0) {
            Some(j) => j,
            None => {
                proof {
                    assert(rest@.skip(0) =~= rest@);
                }
                return Err(FtdiError::usb_common(-11));
            },
        };
        proof {
            assert(rest@.skip(0) =~= rest@);
        }
        let bus_str = rest.substring_char(0, j);
        let addr_str = rest.substring_char(j + 1, rlen);
        proof {
            assert(bus_str@ =~= rest@.take(j as int));
            assert(addr_str@ =~= rest@.skip(j + 1));
        }
        let bus = match parse_field_u16(bus_str) {
            Ok(v) => v,
            Err(_) => {
                return Err(FtdiError::usb_common(-11));
            },
        };
        let address = match parse_field_u16(addr_str) {
            Ok(v) => v,
            Err(_) => {
                return Err(FtdiError::usb_common(-11));
            },
        };
        Ok(DeviceSelector::BusAddress { bus, address })
    } else if c0 == 'i' {
        let vals = match parse_vendor_product_index(description) {
            Ok(v) => v,
            Err(e) => {
                return Err(e);
            },
        };
        if vals.len() == 2 {
            let vendor = vals[0];
            let product = vals[1];
            Ok(DeviceSelector::VendorProduct { vendor, product, index: 0 })
        } else if vals.len() == 3 {
            let vendor = vals[0];
            let product = vals[1];
            let index = vals[2];
            Ok(DeviceSelector::VendorProduct { vendor, product, index })
        } else {
            Err(FtdiError::usb_common(-11))
        }
    } else if c0 == 's' {
        let fields = split_colon(description);
        let ghost views = fields@.map_values(|f: String| f@);
        if fields.len() <= 3 {
            return Err(FtdiError::usb_common(-12));
        }
        if fields.len() >= 5 {
            return Err(FtdiError::usb_common(-14));
        }
        proof {
            assert(views[1] == fields@[1]@);
            assert(views[2] == fields@[2]@);
            assert(views[3] == fields@[3]@);
        }
        let vendor = match parse_field_u16(fields[1].as_str()) {
            Ok(v) => v,
            Err(e) => {
                return Err(e);
            },
        };
        let product = match parse_field_u16(fields[2].as_str()) {
            Ok(v) => v,
            Err(e) => {
                return Err(e);
            },
        };
        let serial = fields[3].clone();
        Ok(DeviceSelector::VendorProductSerial { vendor, product, serial })
    } else {
        Err(FtdiError::usb_common(-11))
    }
}

/// Parses a vendor/product selector string into its numeric fields: the
/// leading selector field is dropped, and every colon-separated field after
/// it must be a number — decimal, `0x`-hexadecimal or `0o`-octal. A string
/// that is empty or has no `:`, has fewer than two or more than three
/// fields after the letter, or holds a malformed number, fails with the
/// matching validation code.
pub fn parse_vendor_product_index(description: &str) -> (r: Result<Vec<u16>, FtdiError>)
    ensures
        match spec_parse_vpi(description@) {
            Ok(vals) => r is Ok && r->Ok_0@ == vals,
            Err(code) => r == Err::<Vec<u16>, FtdiError>(
                FtdiError { kind: FtdiErrorKind::UsbCommonError, code },
            ),
        },
{
    let n = description.unicode_len();
    let has_colon = match find_char_from(description, ':', 0) {
        Some(_) => true,
        None => false,
    };
    proof {
        assert(description@.skip(0) =~= description@);
    }
    if n == 0 || !has_colon {
        return Err(FtdiError::usb_common(-11));
    }
    let fields = split_colon(description);
    let count = fields.len();
    if count <= 2 {
        return Err(FtdiError::usb_common(-12));
    }
    if count >= 5 {
        return Err(FtdiError::usb_common(-14));
    }
    numeric_fields_from(&fields, 1)
}

} // verus!
