//! The two value types that run through every component: 20-byte addresses
//! and 256-bit unsigned amounts.

use vstd::arithmetic::div_mod::{lemma_fundamental_div_mod, lemma_mod_pos_bound};
use vstd::prelude::*;

verus! {

/// Two to the power 256: one more than the largest amount.
pub open spec fn modulus() -> nat {
    0x1_0000_0000_0000_0000_0000_0000_0000_0000_0000_0000_0000_0000_0000_0000_0000_0000nat
}

/// The number that a byte string denotes when read most significant byte first.
pub open spec fn be_value(bytes: Seq<u8>) -> nat
    decreases bytes.len(),
{
    if bytes.len() == 0 {
        0
    } else {
        be_value(bytes.drop_last()) * 256 + bytes.last() as nat
    }
}

/// The number that four 64-bit limbs denote, least significant limb first.
pub open spec fn limbs_value(limbs: Seq<u64>) -> nat {
    (limbs[0] as nat) + (limbs[1] as nat) * 0x1_0000_0000_0000_0000 + (limbs[2] as nat)
        * 0x1_0000_0000_0000_0000_0000_0000_0000_0000 + (limbs[3] as nat)
        * 0x1_0000_0000_0000_0000_0000_0000_0000_0000_0000_0000_0000_0000
}

/// Twenty zero bytes: the address that stands for "not resolved".
pub open spec fn zero_address() -> Seq<u8> {
    Seq::new(20, |i: int| 0u8)
}

/// A 20-byte account or contract address.
#[derive(Clone, Copy, Debug, PartialEq, Eq)]
pub struct Address {
    pub bytes: [u8; 20],
}

impl View for Address {
    type V = Seq<u8>;

    open spec fn view(&self) -> Seq<u8> {
        self.bytes@
    }
}

impl Address {
    /// The all-zero address.
    pub fn zero() -> (r: Address)
        ensures
            r@ == zero_address(),
    {
        let r = Address { bytes: [0u8; 20] };
        assert(r@ =~= zero_address());
        r
    }

    pub fn new(bytes: [u8; 20]) -> (r: Address)
        ensures
            r.bytes == bytes,
            r@ == bytes@,
    {
        Address { bytes }
    }

    /// Byte-for-byte equality.
    pub fn same_as(&self, other: &Address) -> (r: bool)
        ensures
            r <==> self@ == other@,
    {
        let mut i: usize = 0;
        while i < 20
            invariant
                i <= 20,
                forall|j: int| 0 <= j < i ==> self.bytes[j] == other.bytes[j],
            decreases 20 - i,
        {
            if self.bytes[i] != other.bytes[i] {
                assert(self@[i as int] != other@[i as int]);
                return false;
            }
            i += 1;
        }
        assert(self@ =~= other@);
        true
    }

    /// True when every byte is zero.
    pub fn is_zero(&self) -> (r: bool)
        ensures
            r <==> self@ == zero_address(),
    {
        let z = Address::zero();
        self.same_as(&z)
    }
}

/// Two addresses with the same bytes are the same address.
pub proof fn lemma_address_view_injective(a: Address, b: Address)
    requires
        a@ == b@,
    ensures
        a == b,
{
    assert(a.bytes =~= b.bytes);
}

/// An unsigned 256-bit amount, held as four 64-bit limbs, least significant first.
#[derive(Clone, Copy, Debug, PartialEq, Eq)]
pub struct U256 {
    pub limbs: [u64; 4],
}

impl View for U256 {
    type V = nat;

    open spec fn view(&self) -> nat {
        limbs_value(self.limbs@)
    }
}

impl U256 {
    /// The amount zero, as a value of specifications.
    pub open spec fn spec_zero() -> U256 {
        U256 { limbs: [0u64, 0u64, 0u64, 0u64] }
    }

    pub fn zero() -> (r: U256)
        ensures
            r == Self::spec_zero(),
            r@ == 0,
    {
        let r = U256 { limbs: [0u64, 0u64, 0u64, 0u64] };
        assert(r.limbs =~= Self::spec_zero().limbs);
        r
    }

    pub fn from_limbs(limbs: [u64; 4]) -> (r: U256)
        ensures
            r@ == limbs_value(limbs@),
            r.limbs == limbs,
    {
        U256 { limbs }
    }

    pub fn from_u64(x: u64) -> (r: U256)
        ensures
            r@ == x,
    {
        U256 { limbs: [x, 0u64, 0u64, 0u64] }
    }

    pub fn from_u128(x: u128) -> (r: U256)
        ensures
            r@ == x,
    {
        let lo: u64 = (x & 0xffff_ffff_ffff_ffff) as u64;
        let hi: u64 = (x >> 64) as u64;
        assert(x == (x & 0xffff_ffff_ffff_ffff) + (x >> 64) * 0x1_0000_0000_0000_0000) by (bit_vector);
        assert((x & 0xffff_ffff_ffff_ffff) <= 0xffff_ffff_ffff_ffff) by (bit_vector);
        assert((x >> 64) <= 0xffff_ffff_ffff_ffff) by (bit_vector);
        U256 { limbs: [lo, hi, 0u64, 0u64] }
    }

    pub fn is_zero(&self) -> (r: bool)
        ensures
            r <==> self@ == 0,
    {
        self.limbs[0] == 0 && self.limbs[1] == 0 && self.limbs[2] == 0 && self.limbs[3] == 0
    }

    /// Strictly greater, as numbers.
    pub fn gt(&self, other: &U256) -> (r: bool)
        ensures
            r <==> self@ > other@,
    {
        if self.limbs[3] != other.limbs[3] {
            self.limbs[3] > other.limbs[3]
        } else if self.limbs[2] != other.limbs[2] {
            self.limbs[2] > other.limbs[2]
        } else if self.limbs[1] != other.limbs[1] {
            self.limbs[1] > other.limbs[1]
        } else {
            self.limbs[0] > other.limbs[0]
        }
    }

    /// Strictly less, as numbers.
    pub fn lt(&self, other: &U256) -> (r: bool)
        ensures
            r <==> self@ < other@,
    {
        other.gt(self)
    }
}

/// Every amount is below two to the power 256, and the largest is one below it.
pub proof fn lemma_u256_bounded(x: U256)
    ensures
        x@ < modulus(),
        limbs_value(seq![u64::MAX, u64::MAX, u64::MAX, u64::MAX]) == modulus() - 1,
{
}

/// Calls `Address::from_slice` of alloy, which copies exactly twenty bytes
/// and panics on any other length: the result holds the bytes of `src`.
#[verifier::external_body]
pub(crate) fn address_from_slice(src: &[u8]) -> (r: Address)
    requires
        src@.len() == 20,
    ensures
        r@ == src@,
{
    Address { bytes: alloy::primitives::Address::from_slice(src).into_array() }
}

/// Calls `U256::from_be_slice` of alloy, which reads at most 32 bytes as a
/// big-endian number and panics when the value does not fit.
#[verifier::external_body]
pub(crate) fn u256_from_be_slice(bytes: &[u8]) -> (r: U256)
    requires
        bytes@.len() <= 32,
    ensures
        r@ == be_value(bytes@),
{
    U256 { limbs: alloy::primitives::U256::from_be_slice(bytes).into_limbs() }
}

/// Calls the `+` of alloy's `U256`, which wraps around at two to the power 256.
#[verifier::external_body]
pub(crate) fn u256_add(a: U256, b: U256) -> (r: U256)
    ensures
        r@ == (a@ + b@) % modulus(),
{
    let x = alloy::primitives::U256::from_limbs(a.limbs);
    let y = alloy::primitives::U256::from_limbs(b.limbs);
    U256 { limbs: (x + y).into_limbs() }
}

/// Calls the `-` of alloy's `U256`, which wraps around below zero.
#[verifier::external_body]
pub(crate) fn u256_sub(a: U256, b: U256) -> (r: U256)
    ensures
        r@ == (a@ - b@) % (modulus() as int),
{
    let x = alloy::primitives::U256::from_limbs(a.limbs);
    let y = alloy::primitives::U256::from_limbs(b.limbs);
    U256 { limbs: (x - y).into_limbs() }
}

/// Calls the `*` of alloy's `U256`, which keeps the low 256 bits of the product.
#[verifier::external_body]
pub(crate) fn u256_mul(a: U256, b: U256) -> (r: U256)
    ensures
        r@ == (a@ * b@) % modulus(),
{
    let x = alloy::primitives::U256::from_limbs(a.limbs);
    let y = alloy::primitives::U256::from_limbs(b.limbs);
    U256 { limbs: (x * y).into_limbs() }
}

/// Calls the `/` of alloy's `U256`, which rounds down and panics on a zero divisor.
#[verifier::external_body]
pub(crate) fn u256_div(a: U256, b: U256) -> (r: U256)
    requires
        b@ != 0,
    ensures
        r@ == a@ / b@,
{
    let x = alloy::primitives::U256::from_limbs(a.limbs);
    let y = alloy::primitives::U256::from_limbs(b.limbs);
    U256 { limbs: (x / y).into_limbs() }
}


/// A number below two to the power 64 plus a multiple of that power determines both parts.
proof fn lemma_split_limb(a0: int, a1: int, b0: int, b1: int)
    requires
        0 <= a0 < 0x1_0000_0000_0000_0000,
        0 <= b0 < 0x1_0000_0000_0000_0000,
        a0 + 0x1_0000_0000_0000_0000 * a1 == b0 + 0x1_0000_0000_0000_0000 * b1,
    ensures
        a0 == b0,
        a1 == b1,
{
    if a1 > b1 {
        assert(0x1_0000_0000_0000_0000 * a1 >= 0x1_0000_0000_0000_0000 * b1
            + 0x1_0000_0000_0000_0000);
    } else if a1 < b1 {
        assert(0x1_0000_0000_0000_0000 * b1 >= 0x1_0000_0000_0000_0000 * a1
            + 0x1_0000_0000_0000_0000);
    }
}

/// Two amounts with the same value are the same amount.
pub proof fn lemma_u256_value_injective(x: U256, y: U256)
    requires
        x@ == y@,
    ensures
        x == y,
{
    let x0 = x.limbs@[0] as int;
    let x1 = x.limbs@[1] as int;
    let x2 = x.limbs@[2] as int;
    let x3 = x.limbs@[3] as int;
    let y0 = y.limbs@[0] as int;
    let y1 = y.limbs@[1] as int;
    let y2 = y.limbs@[2] as int;
    let y3 = y.limbs@[3] as int;
    let gx = x2 + 0x1_0000_0000_0000_0000 * x3;
    let gy = y2 + 0x1_0000_0000_0000_0000 * y3;
    let hx = x1 + 0x1_0000_0000_0000_0000 * gx;
    let hy = y1 + 0x1_0000_0000_0000_0000 * gy;
    assert(x@ == x0 + 0x1_0000_0000_0000_0000 * hx);
    assert(y@ == y0 + 0x1_0000_0000_0000_0000 * hy);
    lemma_split_limb(x0, hx, y0, hy);
    lemma_split_limb(x1, gx, y1, gy);
    lemma_split_limb(x2, x3, y2, y3);
    assert(x.limbs =~= y.limbs);
}

/// The amount whose value is `n`, for `n` below two to the power 256.
pub open spec fn amount_of(n: nat) -> U256 {
    choose|x: U256| x@ == n
}

/// Every number below two to the power 256 is the value of its amount.
pub proof fn lemma_amount_of(n: nat)
    requires
        n < modulus(),
    ensures
        amount_of(n)@ == n,
{
    let b: int = 0x1_0000_0000_0000_0000;
    let m = n as int;
    let (l0, q1) = (m % b, m / b);
    let (l1, q2) = (q1 % b, q1 / b);
    let (l2, l3) = (q2 % b, q2 / b);
    lemma_fundamental_div_mod(m, b);
    lemma_fundamental_div_mod(q1, b);
    lemma_fundamental_div_mod(q2, b);
    lemma_mod_pos_bound(m, b);
    lemma_mod_pos_bound(q1, b);
    lemma_mod_pos_bound(q2, b);
    assert(m == 0x1_0000_0000_0000_0000 * q1 + l0);
    assert(q1 == 0x1_0000_0000_0000_0000 * q2 + l1);
    assert(q2 == 0x1_0000_0000_0000_0000 * l3 + l2);
    assert(0 <= q1 < 0x1_0000_0000_0000_0000_0000_0000_0000_0000_0000_0000_0000_0000);
    assert(0 <= q2 < 0x1_0000_0000_0000_0000_0000_0000_0000_0000);
    assert(0 <= l3 < 0x1_0000_0000_0000_0000);
    let x = U256 { limbs: [l0 as u64, l1 as u64, l2 as u64, l3 as u64] };
    assert(x.limbs@[0] == l0 && x.limbs@[1] == l1 && x.limbs@[2] == l2 && x.limbs@[3] == l3);
    assert(x@ == n);
}

/// Every amount is the amount of its own value.
pub proof fn lemma_amount_of_value(x: U256)
    ensures
        amount_of(x@) == x,
{
    lemma_u256_value_injective(x, amount_of(x@));
}

} // verus!
