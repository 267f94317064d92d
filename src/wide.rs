//! 256-bit unsigned integers for the intermediate products of the pricing
//! formula, computed by `primitive_types::U256` and held here as its four
//! little-endian 64-bit words.
use vstd::prelude::*;
use primitive_types::U256;

verus! {

/// 2^64, the weight of one word.
pub open spec fn word_base() -> int {
    0x1_0000_0000_0000_0000
}

/// 2^256, one past the largest value a `Wide` holds.
pub open spec fn wide_bound() -> int {
    word_base() * word_base() * word_base() * word_base()
}

/// A 256-bit unsigned integer as four little-endian words.
#[derive(Clone, Copy)]
pub struct Wide {
    pub words: [u64; 4],
}

impl Wide {
    /// The number the words stand for.
    pub open spec fn value(self) -> nat {
        (self.words[0] as int + word_base() * (self.words[1] as int + word_base() * (
        self.words[2] as int + word_base() * self.words[3] as int))) as nat
    }
}

/// Relies on `From<u128> for U256`: the low word takes the low 64 bits, the
/// next word the high 64 bits, the other two are zero.
#[verifier::external_body]
pub(crate) fn wide_from_u128(v: u128) -> (r: Wide)
    ensures
        r.value() == v,
{
    Wide { words: U256::from(v).0 }
}

/// Relies on `U256::checked_add`: the sum, or `None` where it would overflow.
#[verifier::external_body]
pub(crate) fn wide_checked_add(a: Wide, b: Wide) -> (r: Option<Wide>)
    ensures
        a.value() + b.value() < wide_bound() ==> r.is_some() && r.unwrap().value() == a.value() + b.value(),
        a.value() + b.value() >= wide_bound() ==> r.is_none(),
{
    U256(a.words).checked_add(U256(b.words)).map(|x| Wide { words: x.0 })
}

/// Relies on `U256::checked_mul`: the product, or `None` where it would overflow.
#[verifier::external_body]
pub(crate) fn wide_checked_mul(a: Wide, b: Wide) -> (r: Option<Wide>)
    ensures
        a.value() * b.value() < wide_bound() ==> r.is_some() && r.unwrap().value() == a.value() * b.value(),
        a.value() * b.value() >= wide_bound() ==> r.is_none(),
{
    U256(a.words).checked_mul(U256(b.words)).map(|x| Wide { words: x.0 })
}

/// Relies on `U256::checked_div`: the floor of the quotient, or `None` for a
/// zero divisor.
#[verifier::external_body]
pub(crate) fn wide_checked_div(a: Wide, b: Wide) -> (r: Option<Wide>)
    ensures
        b.value() > 0 ==> r.is_some() && r.unwrap().value() == a.value() / b.value(),
        b.value() == 0 ==> r.is_none(),
{
    U256(a.words).checked_div(U256(b.words)).map(|x| Wide { words: x.0 })
}

/// Relies on `TryFrom<U256> for u128`: the value where it fits in 128 bits,
/// an error otherwise.
#[verifier::external_body]
pub(crate) fn wide_to_u128(a: Wide) -> (r: Option<u128>)
    ensures
        a.value() <= u128::MAX ==> r == Some(a.value() as u128),
        a.value() > u128::MAX ==> r.is_none(),
{
    u128::try_from(U256(a.words)).ok()
}

} // verus!
