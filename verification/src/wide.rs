use primitive_types::U256;
use vstd::prelude::*;

verus! {

/// 2^64.
pub open spec fn w64() -> nat {
    0x1_0000_0000_0000_0000nat
}

/// 2^128.
pub open spec fn w128() -> nat {
    0x1_0000_0000_0000_0000_0000_0000_0000_0000nat
}

/// 2^256.
pub open spec fn w256() -> nat {
    w128() * w128()
}

/// A 256-bit unsigned number as its four 64-bit words, least significant first:
/// the words of `primitive_types::U256`.
#[derive(Clone, Copy, Debug)]
pub struct Uint256 {
    pub limbs: [u64; 4],
}

impl Uint256 {
    /// The number that the words stand for.
    pub open spec fn value(self) -> nat {
        self.limbs@[0] as nat + self.limbs@[1] as nat * w64() + self.limbs@[2] as nat * w128()
            + self.limbs@[3] as nat * (w128() * w64())
    }
}

/// A 256-bit number is below 2^256.
pub proof fn lemma_value_bound(a: Uint256)
    ensures
        a.value() < w256(),
{
    let l0 = a.limbs@[0] as nat;
    let l1 = a.limbs@[1] as nat;
    let l2 = a.limbs@[2] as nat;
    let l3 = a.limbs@[3] as nat;
    assert(l0 < w64() && l1 < w64() && l2 < w64() && l3 < w64());
    assert(l0 + l1 * w64() + l2 * w128() + l3 * (w128() * w64()) < w256()) by (nonlinear_arith)
        requires
            l0 < w64(),
            l1 < w64(),
            l2 < w64(),
            l3 < w64(),
            w64() == 0x1_0000_0000_0000_0000nat,
            w128() == w64() * w64(),
            w256() == w128() * w128(),
    ;
}

/// `U256::from(u128)`: the same number in 256 bits.
#[verifier::external_body]
pub(crate) fn wide_from_u128(x: u128) -> (r: Uint256)
    ensures
        r.value() == x,
{
    Uint256 { limbs: U256::from(x).0 }
}

/// `U256 * U256`: the product; the operator panics on overflow, so the product must fit.
#[verifier::external_body]
pub(crate) fn wide_mul(a: Uint256, b: Uint256) -> (r: Uint256)
    requires
        a.value() * b.value() < w256(),
    ensures
        r.value() == a.value() * b.value(),
{
    Uint256 { limbs: (U256(a.limbs) * U256(b.limbs)).0 }
}

/// `U256::checked_mul`: the product, or `None` where it does not fit in 256 bits.
#[verifier::external_body]
pub(crate) fn wide_checked_mul(a: Uint256, b: Uint256) -> (r: Option<Uint256>)
    ensures
        match r {
            Some(p) => a.value() * b.value() < w256() && p.value() == a.value() * b.value(),
            None => a.value() * b.value() >= w256(),
        },
{
    U256(a.limbs).checked_mul(U256(b.limbs)).map(|p| Uint256 { limbs: p.0 })
}

/// `U256::checked_add`: the sum, or `None` where it does not fit in 256 bits.
#[verifier::external_body]
pub(crate) fn wide_checked_add(a: Uint256, b: Uint256) -> (r: Option<Uint256>)
    ensures
        match r {
            Some(s) => a.value() + b.value() < w256() && s.value() == a.value() + b.value(),
            None => a.value() + b.value() >= w256(),
        },
{
    U256(a.limbs).checked_add(U256(b.limbs)).map(|s| Uint256 { limbs: s.0 })
}

/// `U256::checked_div`: the quotient rounded down, or `None` for a zero divisor.
#[verifier::external_body]
pub(crate) fn wide_checked_div(a: Uint256, b: Uint256) -> (r: Option<Uint256>)
    ensures
        match r {
            Some(q) => b.value() != 0 && q.value() == a.value() / b.value(),
            None => b.value() == 0,
        },
{
    U256(a.limbs).checked_div(U256(b.limbs)).map(|q| Uint256 { limbs: q.0 })
}

/// `U256 / u128`: the quotient rounded down; the operator panics on a zero divisor.
#[verifier::external_body]
pub(crate) fn wide_div_u128(a: Uint256, d: u128) -> (r: Uint256)
    requires
        d != 0,
    ensures
        r.value() == a.value() / (d as nat),
{
    Uint256 { limbs: (U256(a.limbs) / d).0 }
}

/// `U256 - u128`: the difference; the operator panics where it would go below zero.
#[verifier::external_body]
pub(crate) fn wide_sub_u128(a: Uint256, b: u128) -> (r: Uint256)
    requires
        a.value() >= b,
    ensures
        r.value() == a.value() - b,
{
    Uint256 { limbs: (U256(a.limbs) - b).0 }
}

/// `U256::as_u128`: the number as a `u128`; it panics where the number does not fit.
#[verifier::external_body]
pub(crate) fn wide_as_u128(a: Uint256) -> (r: u128)
    requires
        a.value() < w128(),
    ensures
        r == a.value(),
{
    U256(a.limbs).as_u128()
}

/// `U256 <= U256`.
#[verifier::external_body]
pub(crate) fn wide_le(a: Uint256, b: Uint256) -> (r: bool)
    ensures
        r == (a.value() <= b.value()),
{
    U256(a.limbs) <= U256(b.limbs)
}

} // verus!
