//! Decimal amounts of tokens, of any size. The arithmetic is done by the
//! `bigdecimal` crate; an amount here is what such a decimal is made of: the
//! bytes of its digits, their sign, and its scale.

use bigdecimal::num_bigint::{BigInt, Sign};
use bigdecimal::BigDecimal;
use vstd::prelude::*;

verus! {

/// Ten to the power `n`.
pub open spec fn pow10(n: nat) -> int
    decreases n,
{
    if n == 0 {
        1
    } else {
        10 * pow10((n - 1) as nat)
    }
}

/// The number that `bytes` spell in base 256, the most significant byte first.
pub open spec fn magnitude_of(bytes: Seq<u8>) -> nat
    decreases bytes.len(),
{
    if bytes.len() == 0 {
        0
    } else {
        256 * magnitude_of(bytes.drop_last()) + bytes.last() as nat
    }
}

/// The decimal `digits / 10^scale`, where the digits are the number that
/// `magnitude` spells in base 256, the most significant byte first, taken
/// below zero where `negative` is set.
#[derive(Debug, PartialEq, Eq, Hash)]
pub struct Amount {
    pub negative: bool,
    pub magnitude: Vec<u8>,
    pub scale: u8,
}

/// An amount as the integer of its digits and its scale: `digits / 10^scale`.
pub struct AmountView {
    pub digits: int,
    pub scale: u8,
}

impl View for Amount {
    type V = AmountView;

    open spec fn view(&self) -> AmountView {
        AmountView {
            digits: if self.negative {
                -(magnitude_of(self.magnitude@) as int)
            } else {
                magnitude_of(self.magnitude@) as int
            },
            scale: self.scale,
        }
    }
}

impl AmountView {
    /// The larger of the two scales: the one at which both amounts can be
    /// written without loss.
    pub open spec fn common_scale(self, other: AmountView) -> u8 {
        if self.scale >= other.scale {
            self.scale
        } else {
            other.scale
        }
    }

    /// The digits of this amount when it is written with `scale` digits after
    /// the point.
    pub open spec fn digits_at(self, scale: u8) -> int
        recommends
            scale >= self.scale,
    {
        self.digits * pow10((scale - self.scale) as nat)
    }

    /// `self - other`, at the common scale.
    pub open spec fn difference(self, other: AmountView) -> AmountView {
        let scale = self.common_scale(other);
        AmountView { digits: self.digits_at(scale) - other.digits_at(scale), scale }
    }

    /// `self + other`, at the common scale.
    pub open spec fn sum(self, other: AmountView) -> AmountView {
        let scale = self.common_scale(other);
        AmountView { digits: self.digits_at(scale) + other.digits_at(scale), scale }
    }
}

/// The bytes that spell `n` in base 256, the most significant first and none
/// to spare.
fn bytes_of(n: u128) -> (bytes: Vec<u8>)
    ensures
        magnitude_of(bytes@) == n,
        bytes@.len() >= 1,
    decreases n,
{
    if n < 256 {
        let mut bytes: Vec<u8> = Vec::new();
        bytes.push(n as u8);
        assert(bytes@.drop_last() =~= Seq::<u8>::empty());
        assert(magnitude_of(bytes@.drop_last()) == 0);
        bytes
    } else {
        let mut bytes = bytes_of(n / 256);
        let ghost upper = bytes@;
        bytes.push((n % 256) as u8);
        assert(bytes@.drop_last() =~= upper);
        bytes
    }
}

impl Amount {
    /// The decimal `unscaled / 10^scale`.
    pub fn new(unscaled: i128, scale: u8) -> (amount: Amount)
        ensures
            amount@ == (AmountView { digits: unscaled as int, scale }),
    {
        if unscaled >= 0 {
            Amount { negative: false, magnitude: bytes_of(unscaled as u128), scale }
        } else if unscaled == i128::MIN {
            Amount {
                negative: true,
                magnitude: bytes_of(0x8000_0000_0000_0000_0000_0000_0000_0000u128),
                scale,
            }
        } else {
            Amount { negative: true, magnitude: bytes_of((-unscaled) as u128), scale }
        }
    }

    /// A copy of this amount, byte for byte.
    pub fn duplicate(&self) -> (copy: Amount)
        ensures
            copy.negative == self.negative,
            copy.magnitude@ == self.magnitude@,
            copy.scale == self.scale,
            copy@ == self@,
    {
        let mut magnitude: Vec<u8> = Vec::new();
        let mut i: usize = 0;
        while i < self.magnitude.len()
            invariant
                i <= self.magnitude@.len(),
                magnitude@ == self.magnitude@.take(i as int),
            decreases self.magnitude@.len() - i,
        {
            magnitude.push(self.magnitude[i]);
            assert(magnitude@ =~= self.magnitude@.take(i + 1));
            i += 1;
        }
        assert(self.magnitude@.take(i as int) =~= self.magnitude@);
        Amount { negative: self.negative, magnitude, scale: self.scale }
    }
}

/// Powers of ten multiply as their exponents add.
pub proof fn lemma_pow10_adds(m: nat, n: nat)
    ensures
        pow10(m + n) == pow10(m) * pow10(n),
    decreases m,
{
    if m > 0 {
        lemma_pow10_adds((m - 1) as nat, n);
        assert(pow10(m + n) == 10 * pow10((m - 1 + n) as nat));
        assert(10 * (pow10((m - 1) as nat) * pow10(n)) == (10 * pow10((m - 1) as nat)) * pow10(n))
            by (nonlinear_arith);
    } else {
        assert(pow10(0) * pow10(n) == pow10(n)) by (nonlinear_arith)
            requires
                pow10(0) == 1,
        ;
    }
}

/// Writing an amount with more digits after the point multiplies its digits by
/// a power of ten.
pub proof fn lemma_digits_at_finer_scale(a: AmountView, coarse: u8, fine: u8)
    requires
        a.scale <= coarse <= fine,
    ensures
        a.digits_at(fine) == a.digits_at(coarse) * pow10((fine - coarse) as nat),
{
    lemma_pow10_adds((coarse - a.scale) as nat, (fine - coarse) as nat);
    let x = a.digits;
    let p = pow10((coarse - a.scale) as nat);
    let q = pow10((fine - coarse) as nat);
    assert(x * (p * q) == (x * p) * q) by (nonlinear_arith);
}

/// Sums and differences are exact: written at any scale that holds both
/// operands, the digits of the result are the sum, or the difference, of the
/// operands' digits.
pub proof fn lemma_arithmetic_is_exact(a: AmountView, b: AmountView, scale: u8)
    requires
        scale >= a.common_scale(b),
    ensures
        a.sum(b).digits_at(scale) == a.digits_at(scale) + b.digits_at(scale),
        a.difference(b).digits_at(scale) == a.digits_at(scale) - b.digits_at(scale),
{
    let common = a.common_scale(b);
    lemma_digits_at_finer_scale(a, common, scale);
    lemma_digits_at_finer_scale(b, common, scale);
    let x = a.digits_at(common);
    let y = b.digits_at(common);
    let q = pow10((scale - common) as nat);
    assert((x + y) * q == x * q + y * q) by (nonlinear_arith);
    assert((x - y) * q == x * q - y * q) by (nonlinear_arith);
}

/// `&BigDecimal - &BigDecimal` of the `bigdecimal` crate, on the decimals that
/// `a` and `b` stand for. The crate brings both operands to the larger scale and
/// subtracts their digits. The digits go in through `BigInt::from_bytes_be` and
/// come out through `BigInt::to_bytes_be`, which read and write base 256 with
/// the most significant byte first.
#[verifier::external_body]
pub(crate) fn decimal_sub(a: &Amount, b: &Amount) -> (difference: Amount)
    ensures
        difference@ == a@.difference(b@),
{
    let sa = if a.negative { Sign::Minus } else { Sign::Plus };
    let sb = if b.negative { Sign::Minus } else { Sign::Plus };
    let x = BigDecimal::new(BigInt::from_bytes_be(sa, &a.magnitude), i64::from(a.scale));
    let y = BigDecimal::new(BigInt::from_bytes_be(sb, &b.magnitude), i64::from(b.scale));
    let (digits, scale) = (&x - &y).into_bigint_and_exponent();
    let (sign, magnitude) = digits.to_bytes_be();
    Amount { negative: sign == Sign::Minus, magnitude, scale: scale as u8 }
}

/// `BigDecimal + BigDecimal` of the `bigdecimal` crate, on the decimals that `a`
/// and `b` stand for. The crate brings both operands to the larger scale and adds
/// their digits. The digits go in and come out as in `decimal_sub`.
#[verifier::external_body]
pub(crate) fn decimal_add(a: &Amount, b: &Amount) -> (sum: Amount)
    ensures
        sum@ == a@.sum(b@),
{
    let sa = if a.negative { Sign::Minus } else { Sign::Plus };
    let sb = if b.negative { Sign::Minus } else { Sign::Plus };
    let x = BigDecimal::new(BigInt::from_bytes_be(sa, &a.magnitude), i64::from(a.scale));
    let y = BigDecimal::new(BigInt::from_bytes_be(sb, &b.magnitude), i64::from(b.scale));
    let (digits, scale) = (x + y).into_bigint_and_exponent();
    let (sign, magnitude) = digits.to_bytes_be();
    Amount { negative: sign == Sign::Minus, magnitude, scale: scale as u8 }
}

} // verus!
