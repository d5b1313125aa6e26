use vstd::prelude::*;

verus! {

/// Whether `v` is a Unicode scalar value: a code point that is not a surrogate.
pub open spec fn is_scalar_value(v: u32) -> bool {
    v <= 0xD7FF || (0xE000 <= v && v <= 0x10FFFF)
}

/// The character whose scalar value is `v`, if `v` is one.
pub open spec fn char_of_scalar(v: u32) -> Option<char> {
    if is_scalar_value(v) {
        Some(v as char)
    } else {
        None
    }
}

/// Relies on `char::from_u32`: `Some` exactly for scalar values, holding that value.
#[verifier::external_body]
pub(crate) fn char_from_u32(v: u32) -> (r: Option<char>)
    ensures
        r == char_of_scalar(v),
{
    char::from_u32(v)
}

/// The UTF-16 code units that encode `c`: one unit inside the basic plane, a surrogate
/// pair above it.
pub open spec fn utf16_of(c: char) -> Seq<u16> {
    let v = c as u32;
    if v < 0x10000 {
        seq![v as u16]
    } else {
        let w = (v - 0x10000) as u32;
        seq![(0xD800 + w / 0x400) as u16, (0xDC00 + w % 0x400) as u16]
    }
}

/// Encodes `c` as UTF-16 code units.
pub fn utf16_units(c: char) -> (r: Vec<u16>)
    ensures
        r@ == utf16_of(c),
{
    let v: u32 = c as u32;
    let mut units: Vec<u16> = Vec::new();
    if v < 0x10000 {
        units.push(v as u16);
    } else {
        let w: u32 = v - 0x10000;
        units.push((0xD800 + w / 0x400) as u16);
        units.push((0xDC00 + w % 0x400) as u16);
    }
    assert(units@ =~= utf16_of(c));
    units
}

} // verus!
