//! Scalars of the curve that keys and randomness live on.

use vstd::prelude::*;

verus! {

/// The order of the prime-order subgroup of Curve25519: 2^252 +
/// 27742317777372353535851937790883648493.
pub open spec fn group_order() -> nat {
    7237005577332262213973186563042994240857116359379907606001950938285454250989nat
}

/// The number that a sequence of bytes stands for, the least significant first.
pub open spec fn le_value(bytes: Seq<u8>) -> nat
    decreases bytes.len(),
{
    if bytes.len() == 0 {
        0
    } else {
        (bytes[0] + 256 * le_value(bytes.drop_first())) as nat
    }
}

/// A scalar modulo the group order.
#[derive(Clone, Copy, Debug, PartialEq, Eq)]
pub struct Scalar {
    /// The number, the least significant byte first.
    pub bytes: [u8; 32],
}

impl Scalar {
    /// The number that the scalar is.
    pub open spec fn value(self) -> nat {
        le_value(self.bytes@)
    }

    /// The scalar zero.
    pub fn zero() -> (scalar: Self)
        ensures
            scalar.value() == 0,
            forall|i: int| 0 <= i < 32 ==> #[trigger] scalar.bytes@[i] == 0,
            scalar.bytes@ == Seq::new(32, |i: int| 0u8),
    {
        let scalar = Scalar { bytes: zero_bytes() };
        proof {
            lemma_trailing_zeros(Seq::<u8>::empty(), 32);
            assert(Seq::<u8>::empty() + Seq::new(32, |i: int| 0u8) =~= scalar.bytes@);
        }
        scalar
    }
}

/// The bytes of the scalar zero, by `Scalar::zero` of `curve25519_dalek`.
///
/// Trusted: they are all zero.
#[verifier::external_body]
fn zero_bytes() -> (bytes: [u8; 32])
    ensures
        bytes@ == Seq::new(32, |i: int| 0u8),
{
    curve25519_dalek::scalar::Scalar::zero().to_bytes()
}

/// Reduces a number of 64 bytes by `Scalar::from_bytes_mod_order_wide` of
/// `curve25519_dalek`.
///
/// Trusted: the result is the remainder of the number by the group order.
#[verifier::external_body]
fn reduce_wide(wide: &Vec<u8>) -> (bytes: [u8; 32])
    requires
        wide@.len() == 64,
    ensures
        le_value(bytes@) == le_value(wide@) % group_order(),
{
    let input: &[u8; 64] = wide.as_slice().try_into().unwrap();
    curve25519_dalek::scalar::Scalar::from_bytes_mod_order_wide(input).to_bytes()
}

proof fn lemma_trailing_zeros(bytes: Seq<u8>, n: nat)
    ensures
        le_value(bytes + Seq::new(n, |i: int| 0u8)) == le_value(bytes),
    decreases bytes.len() + n,
{
    let zeros = Seq::new(n, |i: int| 0u8);
    let padded = bytes + zeros;
    if bytes.len() > 0 {
        lemma_trailing_zeros(bytes.drop_first(), n);
        assert(padded.drop_first() =~= bytes.drop_first() + zeros);
    } else if n > 0 {
        lemma_trailing_zeros(bytes, (n - 1) as nat);
        assert(padded.drop_first() =~= bytes + Seq::new((n - 1) as nat, |i: int| 0u8));
    }
}

/// The bytes of `low + 256 * high`, padded to 64.
fn widened(low: u8, high: Scalar) -> (wide: Vec<u8>)
    ensures
        wide@.len() == 64,
        le_value(wide@) == low + 256 * high.value(),
{
    let mut wide: Vec<u8> = Vec::new();
    wide.push(low);
    let mut n: usize = 0;
    while n < 32
        invariant
            n <= 32,
            wide@ == seq![low] + high.bytes@.take(n as int),
        decreases 32 - n,
    {
        wide.push(high.bytes[n]);
        n += 1;
        assert(wide@ =~= seq![low] + high.bytes@.take(n as int));
    }
    assert(wide@ =~= seq![low] + high.bytes@);
    while n < 63
        invariant
            32 <= n <= 63,
            wide@ == seq![low] + high.bytes@ + Seq::new((n - 32) as nat, |i: int| 0u8),
        decreases 63 - n,
    {
        wide.push(0);
        n += 1;
        assert(wide@ =~= seq![low] + high.bytes@ + Seq::new((n - 32) as nat, |i: int| 0u8));
    }
    proof {
        lemma_trailing_zeros(high.bytes@, 31);
        assert(wide@.drop_first() =~= high.bytes@ + Seq::new(31, |i: int| 0u8));
    }
    wide
}

/// The scalar of a number of any size, given by its bytes, the least
/// significant first: its remainder by the group order.
pub fn biguint_to_scalar(number: &Vec<u8>) -> (scalar: Scalar)
    ensures
        scalar.value() == le_value(number@) % group_order(),
{
    let mut scalar: Scalar = Scalar::zero();
    let mut n: usize = number.len();
    assert(number@.skip(n as int) =~= Seq::<u8>::empty());
    while n > 0
        invariant
            n <= number@.len(),
            scalar.value() == le_value(number@.skip(n as int)) % group_order(),
        decreases n,
    {
        n -= 1;
        let ghost rest = le_value(number@.skip(n + 1));
        let wide: Vec<u8> = widened(number[n], scalar);
        proof {
            assert(number@.skip(n as int).drop_first() =~= number@.skip(n + 1));
            vstd::arithmetic::div_mod::lemma_mul_mod_noop_right(
                256,
                rest as int,
                group_order() as int,
            );
            vstd::arithmetic::div_mod::lemma_add_mod_noop(
                number@[n as int] as int,
                256 * rest as int,
                group_order() as int,
            );
            vstd::arithmetic::div_mod::lemma_add_mod_noop(
                number@[n as int] as int,
                256 * (rest % group_order()) as int,
                group_order() as int,
            );
        }
        scalar = Scalar { bytes: reduce_wide(&wide) };
    }
    assert(number@.skip(0) =~= number@);
    scalar
}

/// Byte strings of one length stand for the same number only if they are the
/// same. So the value of a scalar determines its bytes.
pub proof fn law_value_determines_bytes(a: Seq<u8>, b: Seq<u8>)
    requires
        a.len() == b.len(),
        le_value(a) == le_value(b),
    ensures
        a == b,
    decreases a.len(),
{
    if a.len() > 0 {
        law_value_determines_bytes(a.drop_first(), b.drop_first());
        assert(a =~= seq![a[0]] + a.drop_first());
        assert(b =~= seq![b[0]] + b.drop_first());
    }
}

/// The value of no bytes is zero, and a byte put in front of others, whose value
/// counts 256-fold then, adds its own.
pub proof fn law_each_byte_counts_by_its_place(low: u8, high: Seq<u8>)
    ensures
        le_value(Seq::<u8>::empty()) == 0,
        le_value(seq![low] + high) == low + 256 * le_value(high),
{
    assert((seq![low] + high).drop_first() =~= high);
}

/// The value of a scalar is that of its bytes.
pub proof fn law_scalar_is_its_bytes(scalar: Scalar)
    ensures
        scalar.value() == le_value(scalar.bytes@),
{
}

/// The group order is 2^252 + 27742317777372353535851937790883648493.
pub proof fn law_group_order()
    ensures
        group_order() == 0x1000000000000000000000000000000000000000000000000000000000000000nat
            + 27742317777372353535851937790883648493nat,
{
}

} // verus!
