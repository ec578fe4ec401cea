//! The base field of Triton VM, modelled by canonical representatives.
//!
//! Every element of the prime field with `2^64 - 2^32 + 1` elements is held
//! as its canonical value: a `u64` strictly below the field order. Signed
//! integers taken from the command line are mapped into this domain with
//! wraparound at the field order.

use vstd::prelude::*;

verus! {

/// The order of Triton VM's base field: `2^64 - 2^32 + 1`.
pub const FIELD_ORDER: u64 = 0xffff_ffff_0000_0001;

/// A `u64` is a canonical field element when it is strictly below the
/// field order.
pub open spec fn canonical(v: u64) -> bool {
    v < FIELD_ORDER
}

/// Every value of the sequence is a canonical field element.
pub open spec fn all_canonical(s: Seq<u64>) -> bool {
    forall|i: int| 0 <= i < s.len() ==> canonical(#[trigger] s[i])
}

/// The canonical field element denoted by a signed integer in the range of
/// `i64`: non-negative values denote themselves, negative values wrap
/// around at the field order.
pub open spec fn field_of_i64(v: int) -> int
    recommends
        -0x8000_0000_0000_0000 <= v < 0x8000_0000_0000_0000,
{
    if v >= 0 {
        v
    } else {
        v + FIELD_ORDER
    }
}

/// Map a signed command-line value into the field's canonical domain.
pub fn field_element_from_i64(v: i64) -> (r: u64)
    ensures
        canonical(r),
        r == field_of_i64(v as int),
{
    if v >= 0 {
        v as u64
    } else {
        let magnitude: u64 = if v == i64::MIN {
            0x8000_0000_0000_0000u64
        } else {
            (-v) as u64
        };
        FIELD_ORDER - magnitude
    }
}

} // verus!
