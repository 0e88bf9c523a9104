//! Fixed-point numbers with 16 fractional bits, backed by 64-bit integers.
//!
//! Overflow policy: every operation wraps on the 64-bit raw representation
//! (two's complement for the signed type), except where it is stated otherwise.
//! Multiplication and division of two fixed-point values compute the full
//! product or shifted dividend in 128 bits before the result is narrowed, so no
//! precision is lost before the shift. Division by zero is not callable.
use vstd::prelude::*;

verus! {

/// Number of fractional bits in the raw representation of both fixed-point types.
pub const INTERNAL_FRACTION_BITS: u64 = 16;

/// `2^16`, the scale between a raw value and the number it represents.
pub open spec fn scale() -> int {
    65536
}

/// The low 64 bits of `x`, read as an unsigned integer.
pub open spec fn wrap_u64(x: int) -> u64 {
    x as u64
}

/// The low 64 bits of `x`, read as a two's-complement integer.
pub open spec fn wrap_i64(x: int) -> i64 {
    x as i64
}

/// Integer division rounding toward zero, as Rust's `/` does.
pub open spec fn trunc_div(a: int, b: int) -> int {
    if a >= 0 {
        if b > 0 { a / b } else { -(a / (-b)) }
    } else {
        if b > 0 { -((-a) / b) } else { (-a) / (-b) }
    }
}

proof fn lemma_shl16_u64(n: u64)
    ensures
        n << 16u64 == wrap_u64(n * 65536),
{
    assert(n << 16u64 == (n * 65536) as u64) by (bit_vector);
}

proof fn lemma_shr16_u64(n: u64)
    ensures
        n >> 16u64 == n / 65536,
{
    assert(n >> 16u64 == n / 65536) by (bit_vector);
}

proof fn lemma_wrapping_add_u64(a: u64, b: u64)
    ensures
        vstd::wrapping::u64_specs::wrapping_add(a, b) == wrap_u64(a + b),
{
    assert(vstd::wrapping::u64_specs::wrapping_add(a, b) == (a + b) as u64) by (bit_vector);
}

proof fn lemma_wrapping_sub_u64(a: u64, b: u64)
    ensures
        vstd::wrapping::u64_specs::wrapping_sub(a, b) == wrap_u64(a - b),
{
    assert(vstd::wrapping::u64_specs::wrapping_sub(a, b) == (a - b) as u64) by (bit_vector);
}

proof fn lemma_wrapping_mul_u64(a: u64, b: u64)
    ensures
        vstd::wrapping::u64_specs::wrapping_mul(a, b) == wrap_u64(a * b),
{
    assert(vstd::wrapping::u64_specs::wrapping_mul(a, b) == (a * b) as u64) by (bit_vector);
}

/// Adding a wrapped term is adding the term, then wrapping.
proof fn lemma_add_wrapped_u64(a: u64, n: u64)
    ensures
        wrap_u64(a + wrap_u64(n * 65536)) == wrap_u64(a + n * 65536),
        wrap_u64(a - wrap_u64(n * 65536)) == wrap_u64(a - n * 65536),
{
    assert(((a + ((n * 65536) as u64)) as u64) == ((a + n * 65536) as u64)) by (bit_vector);
    assert(((a - ((n * 65536) as u64)) as u64) == ((a - n * 65536) as u64)) by (bit_vector);
}

/// An unsigned fixed-point number: the real value `raw / 2^16`.
#[derive(Default, PartialEq, Eq, PartialOrd, Ord, Hash, Clone, Copy, Debug, Structural)]
pub struct FractionNum(u64);

impl FractionNum {
    pub const FRACTION_BITS: u64 = INTERNAL_FRACTION_BITS;

    /// The raw, scaled representation.
    pub closed spec fn raw(self) -> u64 {
        self.0
    }

    /// The value whose raw representation is `raw`.
    pub closed spec fn spec_from_raw(raw: u64) -> FractionNum {
        FractionNum(raw)
    }

    pub broadcast proof fn lemma_raw_from_raw(raw: u64)
        ensures
            #[trigger] Self::spec_from_raw(raw).raw() == raw,
    {
    }

    pub broadcast proof fn lemma_from_raw_raw(a: FractionNum)
        ensures
            Self::spec_from_raw(#[trigger] a.raw()) == a,
    {
    }

    /// The integer `num` as a fixed-point value (wrapping past 2^48).
    pub open spec fn spec_new(num: u64) -> FractionNum {
        Self::spec_from_raw(wrap_u64(num * scale()))
    }

    /// The integer part: the fraction bits dropped.
    pub open spec fn spec_to_integer(self) -> u64 {
        (self.raw() / 65536) as u64
    }

    pub open spec fn spec_add(self, rhs: FractionNum) -> FractionNum {
        Self::spec_from_raw(wrap_u64(self.raw() + rhs.raw()))
    }

    pub open spec fn spec_sub(self, rhs: FractionNum) -> FractionNum {
        Self::spec_from_raw(wrap_u64(self.raw() - rhs.raw()))
    }

    pub open spec fn spec_add_int(self, rhs: u64) -> FractionNum {
        Self::spec_from_raw(wrap_u64(self.raw() + rhs * scale()))
    }

    pub open spec fn spec_sub_int(self, rhs: u64) -> FractionNum {
        Self::spec_from_raw(wrap_u64(self.raw() - rhs * scale()))
    }

    pub open spec fn spec_mul_int(self, rhs: u64) -> FractionNum {
        Self::spec_from_raw(wrap_u64(self.raw() * rhs))
    }

    /// Full product of the raw values, shifted back by the fraction bits.
    pub open spec fn spec_mul(self, rhs: FractionNum) -> FractionNum {
        Self::spec_from_raw(wrap_u64((self.raw() * rhs.raw()) / scale()))
    }

    pub open spec fn spec_div_int(self, rhs: u64) -> FractionNum {
        Self::spec_from_raw((self.raw() / rhs) as u64)
    }

    /// The dividend shifted up by the fraction bits, then divided.
    pub open spec fn spec_div(self, rhs: FractionNum) -> FractionNum {
        Self::spec_from_raw(wrap_u64((self.raw() * scale()) / (rhs.raw() as int)))
    }

    /// The integer `num`: its raw value is `num` shifted left by the fraction bits.
    #[inline]
    pub fn new(num: u64) -> (r: FractionNum)
        ensures
            r == Self::spec_new(num),
    {
        proof {
            lemma_shl16_u64(num);
        }
        FractionNum(num << Self::FRACTION_BITS)
    }

    /// The value whose raw representation is `num`; no scaling is applied.
    pub fn from_raw_u64(num: u64) -> (r: FractionNum)
        ensures
            r.raw() == num,
    {
        Self(num)
    }

    /// The integer part: the raw value shifted right by the fraction bits.
    pub fn into_u64(self) -> (r: u64)
        ensures
            r == self.spec_to_integer(),
    {
        proof {
            lemma_shr16_u64(self.0);
        }
        self.0 >> Self::FRACTION_BITS
    }

    /// The raw representation; no scaling is removed.
    pub fn into_raw_u64(self) -> (r: u64)
        ensures
            r == self.raw(),
    {
        self.0
    }
}

pub broadcast group group_fraction_num {
    FractionNum::lemma_raw_from_raw,
    FractionNum::lemma_from_raw_raw,
}

impl From<u64> for FractionNum {
    fn from(n: u64) -> (r: FractionNum) {
        FractionNum::new(n)
    }
}

impl vstd::std_specs::convert::FromSpecImpl<u64> for FractionNum {
    open spec fn obeys_from_spec() -> bool {
        true
    }

    open spec fn from_spec(n: u64) -> FractionNum {
        FractionNum::spec_new(n)
    }
}

impl From<FractionNum> for u64 {
    fn from(n: FractionNum) -> (r: u64) {
        n.into_u64()
    }
}

impl vstd::std_specs::convert::FromSpecImpl<FractionNum> for u64 {
    open spec fn obeys_from_spec() -> bool {
        true
    }

    open spec fn from_spec(n: FractionNum) -> u64 {
        n.spec_to_integer()
    }
}

impl core::ops::Add for FractionNum {
    type Output = FractionNum;

    fn add(self, rhs: FractionNum) -> (r: FractionNum) {
        proof {
            lemma_wrapping_add_u64(self.0, rhs.0);
        }
        FractionNum(self.0.wrapping_add(rhs.0))
    }
}

impl vstd::std_specs::ops::AddSpecImpl for FractionNum {
    open spec fn obeys_add_spec() -> bool {
        true
    }

    open spec fn add_req(self, rhs: FractionNum) -> bool {
        true
    }

    open spec fn add_spec(self, rhs: FractionNum) -> FractionNum {
        self.spec_add(rhs)
    }
}

impl core::ops::AddAssign for FractionNum {
    fn add_assign(&mut self, rhs: FractionNum)
        ensures
            *final(self) == old(self).spec_add(rhs),
    {
        *self = *self + rhs;
    }
}

impl core::ops::Add<u64> for FractionNum {
    type Output = FractionNum;

    fn add(self, rhs: u64) -> (r: FractionNum) {
        proof {
            lemma_add_wrapped_u64(self.0, rhs);
        }
        self + Self::new(rhs)
    }
}

impl vstd::std_specs::ops::AddSpecImpl<u64> for FractionNum {
    open spec fn obeys_add_spec() -> bool {
        true
    }

    open spec fn add_req(self, rhs: u64) -> bool {
        true
    }

    open spec fn add_spec(self, rhs: u64) -> FractionNum {
        self.spec_add_int(rhs)
    }
}

impl core::ops::AddAssign<u64> for FractionNum {
    fn add_assign(&mut self, rhs: u64)
        ensures
            *final(self) == old(self).spec_add_int(rhs),
    {
        *self = *self + rhs;
    }
}

impl core::ops::Sub for FractionNum {
    type Output = FractionNum;

    fn sub(self, rhs: FractionNum) -> (r: FractionNum) {
        proof {
            lemma_wrapping_sub_u64(self.0, rhs.0);
        }
        FractionNum(self.0.wrapping_sub(rhs.0))
    }
}

impl vstd::std_specs::ops::SubSpecImpl for FractionNum {
    open spec fn obeys_sub_spec() -> bool {
        true
    }

    open spec fn sub_req(self, rhs: FractionNum) -> bool {
        true
    }

    open spec fn sub_spec(self, rhs: FractionNum) -> FractionNum {
        self.spec_sub(rhs)
    }
}

impl core::ops::SubAssign for FractionNum {
    fn sub_assign(&mut self, rhs: FractionNum)
        ensures
            *final(self) == old(self).spec_sub(rhs),
    {
        *self = *self - rhs;
    }
}

impl core::ops::Sub<u64> for FractionNum {
    type Output = FractionNum;

    fn sub(self, rhs: u64) -> (r: FractionNum) {
        proof {
            lemma_add_wrapped_u64(self.0, rhs);
        }
        self - Self::new(rhs)
    }
}

impl vstd::std_specs::ops::SubSpecImpl<u64> for FractionNum {
    open spec fn obeys_sub_spec() -> bool {
        true
    }

    open spec fn sub_req(self, rhs: u64) -> bool {
        true
    }

    open spec fn sub_spec(self, rhs: u64) -> FractionNum {
        self.spec_sub_int(rhs)
    }
}

impl core::ops::SubAssign<u64> for FractionNum {
    fn sub_assign(&mut self, rhs: u64)
        ensures
            *final(self) == old(self).spec_sub_int(rhs),
    {
        *self = *self - rhs;
    }
}

impl core::ops::Mul<u64> for FractionNum {
    type Output = FractionNum;

    fn mul(self, rhs: u64) -> (r: FractionNum) {
        proof {
            lemma_wrapping_mul_u64(self.0, rhs);
        }
        FractionNum(self.0.wrapping_mul(rhs))
    }
}

impl vstd::std_specs::ops::MulSpecImpl<u64> for FractionNum {
    open spec fn obeys_mul_spec() -> bool {
        true
    }

    open spec fn mul_req(self, rhs: u64) -> bool {
        true
    }

    open spec fn mul_spec(self, rhs: u64) -> FractionNum {
        self.spec_mul_int(rhs)
    }
}

impl core::ops::MulAssign<u64> for FractionNum {
    fn mul_assign(&mut self, rhs: u64)
        ensures
            *final(self) == old(self).spec_mul_int(rhs),
    {
        *self = *self * rhs;
    }
}

impl core::ops::Mul<FractionNum> for FractionNum {
    type Output = FractionNum;

    fn mul(self, rhs: FractionNum) -> (r: FractionNum) {
        let a = self.0;
        let b = rhs.0;
        assert(a * b <= 0xffff_ffff_ffff_ffff * 0xffff_ffff_ffff_ffffint) by (nonlinear_arith)
            requires
                a <= 0xffff_ffff_ffff_ffffint,
                b <= 0xffff_ffff_ffff_ffffint,
        ;
        let wide: u128 = (a as u128) * (b as u128);
        let shifted: u128 = wide >> 16u32;
        assert(shifted == wide / 65536) by (bit_vector)
            requires
                shifted == wide >> 16u32,
        ;
        let narrowed: u64 = #[verifier::truncate] (shifted as u64);
        FractionNum(narrowed)
    }
}

impl vstd::std_specs::ops::MulSpecImpl<FractionNum> for FractionNum {
    open spec fn obeys_mul_spec() -> bool {
        true
    }

    open spec fn mul_req(self, rhs: FractionNum) -> bool {
        true
    }

    open spec fn mul_spec(self, rhs: FractionNum) -> FractionNum {
        self.spec_mul(rhs)
    }
}

impl core::ops::MulAssign<FractionNum> for FractionNum {
    fn mul_assign(&mut self, rhs: FractionNum)
        ensures
            *final(self) == old(self).spec_mul(rhs),
    {
        *self = *self * rhs;
    }
}

impl core::ops::Div<u64> for FractionNum {
    type Output = FractionNum;

    fn div(self, rhs: u64) -> (r: FractionNum) {
        FractionNum(self.0 / rhs)
    }
}

impl vstd::std_specs::ops::DivSpecImpl<u64> for FractionNum {
    open spec fn obeys_div_spec() -> bool {
        true
    }

    /// Division by zero is a program error.
    open spec fn div_req(self, rhs: u64) -> bool {
        rhs != 0
    }

    open spec fn div_spec(self, rhs: u64) -> FractionNum {
        self.spec_div_int(rhs)
    }
}

impl core::ops::DivAssign<u64> for FractionNum {
    fn div_assign(&mut self, rhs: u64)
        requires
            rhs != 0,
        ensures
            *final(self) == old(self).spec_div_int(rhs),
    {
        *self = *self / rhs;
    }
}

impl core::ops::Div<FractionNum> for FractionNum {
    type Output = FractionNum;

    fn div(self, rhs: FractionNum) -> (r: FractionNum) {
        let shifted: u128 = (self.0 as u128) * 65536;
        let quotient: u128 = shifted / (rhs.0 as u128);
        let narrowed: u64 = #[verifier::truncate] (quotient as u64);
        FractionNum(narrowed)
    }
}

impl vstd::std_specs::ops::DivSpecImpl<FractionNum> for FractionNum {
    open spec fn obeys_div_spec() -> bool {
        true
    }

    /// Division by a zero value is a program error.
    open spec fn div_req(self, rhs: FractionNum) -> bool {
        rhs.raw() != 0
    }

    open spec fn div_spec(self, rhs: FractionNum) -> FractionNum {
        self.spec_div(rhs)
    }
}

impl core::ops::DivAssign<FractionNum> for FractionNum {
    fn div_assign(&mut self, rhs: FractionNum)
        requires
            rhs.raw() != 0,
        ensures
            *final(self) == old(self).spec_div(rhs),
    {
        *self = *self / rhs;
    }
}

impl core::ops::Shl<u32> for FractionNum {
    type Output = FractionNum;

    fn shl(self, rhs: u32) -> (r: FractionNum) {
        FractionNum(self.0 << rhs)
    }
}

impl vstd::std_specs::ops::ShlSpecImpl<u32> for FractionNum {
    open spec fn obeys_shl_spec() -> bool {
        true
    }

    /// The shift amount is below the width of the raw representation.
    open spec fn shl_req(self, rhs: u32) -> bool {
        rhs < 64
    }

    open spec fn shl_spec(self, rhs: u32) -> FractionNum {
        Self::spec_from_raw(self.raw() << rhs)
    }
}

impl core::ops::Shr<u32> for FractionNum {
    type Output = FractionNum;

    fn shr(self, rhs: u32) -> (r: FractionNum) {
        FractionNum(self.0 >> rhs)
    }
}

impl vstd::std_specs::ops::ShrSpecImpl<u32> for FractionNum {
    open spec fn obeys_shr_spec() -> bool {
        true
    }

    /// The shift amount is below the width of the raw representation.
    open spec fn shr_req(self, rhs: u32) -> bool {
        rhs < 64
    }

    open spec fn shr_spec(self, rhs: u32) -> FractionNum {
        Self::spec_from_raw(self.raw() >> rhs)
    }
}

/// A quotient of non-negative numbers is no larger than the dividend, and
/// smaller when the divisor is at least two.
proof fn lemma_div_bounded(p: int, q: int)
    requires
        p >= 0,
        q >= 1,
    ensures
        0 <= p / q <= p,
        p >= 1 && q >= 2 ==> p / q < p,
{
    assert(0 <= p / q <= p) by (nonlinear_arith)
        requires
            p >= 0,
            q >= 1,
    ;
    if p >= 1 && q >= 2 {
        assert(p / q < p) by (nonlinear_arith)
            requires
                p >= 1,
                q >= 2,
        ;
    }
}

proof fn lemma_shl16_i64(n: i64)
    ensures
        n << 16u64 == wrap_i64(n * 65536),
{
    assert(n << 16u64 == (n * 65536) as i64) by (bit_vector);
}

proof fn lemma_shr16_i64(n: i64)
    ensures
        n >> 16u64 == n / 65536,
{
    assert(n >> 16u64 == n / 65536) by (bit_vector);
}

proof fn lemma_wrapping_add_i64(a: i64, b: i64)
    ensures
        vstd::wrapping::i64_specs::wrapping_add(a, b) == wrap_i64(a + b),
{
    assert(vstd::wrapping::i64_specs::wrapping_add(a, b) == (a + b) as i64) by (bit_vector);
}

proof fn lemma_wrapping_sub_i64(a: i64, b: i64)
    ensures
        vstd::wrapping::i64_specs::wrapping_sub(a, b) == wrap_i64(a - b),
{
    assert(vstd::wrapping::i64_specs::wrapping_sub(a, b) == (a - b) as i64) by (bit_vector);
}

proof fn lemma_wrapping_mul_i64(a: i64, b: i64)
    ensures
        vstd::wrapping::i64_specs::wrapping_mul(a, b) == wrap_i64(a * b),
{
    assert(vstd::wrapping::i64_specs::wrapping_mul(a, b) == (a * b) as i64) by (bit_vector);
}

proof fn lemma_add_wrapped_i64(a: i64, n: i64)
    ensures
        wrap_i64(a + wrap_i64(n * 65536)) == wrap_i64(a + n * 65536),
        wrap_i64(a - wrap_i64(n * 65536)) == wrap_i64(a - n * 65536),
{
    assert(((a + ((n * 65536) as i64)) as i64) == ((a + n * 65536) as i64)) by (bit_vector);
    assert(((a - ((n * 65536) as i64)) as i64) == ((a - n * 65536) as i64)) by (bit_vector);
}

/// A signed fixed-point number: the real value `raw / 2^16`, `raw` in two's complement.
#[derive(Default, PartialEq, Eq, PartialOrd, Ord, Hash, Clone, Copy, Debug, Structural)]
pub struct SignedFractionNum(i64);

impl SignedFractionNum {
    pub const FRACTION_BITS: i64 = 16;

    /// The raw, scaled representation.
    pub closed spec fn raw(self) -> i64 {
        self.0
    }

    /// The value whose raw representation is `raw`.
    pub closed spec fn spec_from_raw(raw: i64) -> SignedFractionNum {
        SignedFractionNum(raw)
    }

    pub broadcast proof fn lemma_raw_from_raw(raw: i64)
        ensures
            #[trigger] Self::spec_from_raw(raw).raw() == raw,
    {
    }

    pub broadcast proof fn lemma_from_raw_raw(a: SignedFractionNum)
        ensures
            Self::spec_from_raw(#[trigger] a.raw()) == a,
    {
    }

    /// The integer `num` as a fixed-point value (wrapping outside `[-2^47, 2^47)`).
    pub open spec fn spec_new(num: i64) -> SignedFractionNum {
        Self::spec_from_raw(wrap_i64(num * scale()))
    }

    /// The integer part, rounded toward negative infinity (an arithmetic shift).
    pub open spec fn spec_to_integer(self) -> i64 {
        (self.raw() / 65536) as i64
    }

    /// Absolute value; the most negative raw value is its own absolute value.
    pub open spec fn spec_abs(self) -> SignedFractionNum {
        if self.raw() == i64::MIN {
            self
        } else if self.raw() < 0 {
            Self::spec_from_raw((-self.raw()) as i64)
        } else {
            self
        }
    }

    pub open spec fn spec_add(self, rhs: SignedFractionNum) -> SignedFractionNum {
        Self::spec_from_raw(wrap_i64(self.raw() + rhs.raw()))
    }

    pub open spec fn spec_sub(self, rhs: SignedFractionNum) -> SignedFractionNum {
        Self::spec_from_raw(wrap_i64(self.raw() - rhs.raw()))
    }

    pub open spec fn spec_add_int(self, rhs: i64) -> SignedFractionNum {
        Self::spec_from_raw(wrap_i64(self.raw() + rhs * scale()))
    }

    pub open spec fn spec_sub_int(self, rhs: i64) -> SignedFractionNum {
        Self::spec_from_raw(wrap_i64(self.raw() - rhs * scale()))
    }

    pub open spec fn spec_mul_int(self, rhs: i64) -> SignedFractionNum {
        Self::spec_from_raw(wrap_i64(self.raw() * rhs))
    }

    /// Full product of the raw values, shifted back (rounding toward negative infinity).
    pub open spec fn spec_mul(self, rhs: SignedFractionNum) -> SignedFractionNum {
        Self::spec_from_raw(wrap_i64((self.raw() * rhs.raw()) / scale()))
    }

    pub open spec fn spec_div_int(self, rhs: i64) -> SignedFractionNum {
        Self::spec_from_raw(trunc_div(self.raw() as int, rhs as int) as i64)
    }

    /// The dividend shifted up by the fraction bits, then divided rounding toward zero.
    pub open spec fn spec_div(self, rhs: SignedFractionNum) -> SignedFractionNum {
        Self::spec_from_raw(wrap_i64(trunc_div(self.raw() * scale(), rhs.raw() as int)))
    }

    /// The integer `num`: its raw value is `num` shifted left by the fraction bits.
    #[inline]
    pub fn new(num: i64) -> (r: SignedFractionNum)
        ensures
            r == Self::spec_new(num),
    {
        proof {
            lemma_shl16_i64(num);
        }
        SignedFractionNum(num << Self::FRACTION_BITS)
    }

    /// The value whose raw representation is `num`; no scaling is applied.
    pub fn from_raw_i64(num: i64) -> (r: SignedFractionNum)
        ensures
            r.raw() == num,
    {
        Self(num)
    }

    /// The integer part: the raw value shifted right (arithmetically) by the fraction bits.
    pub fn into_i64(self) -> (r: i64)
        ensures
            r == self.spec_to_integer(),
    {
        proof {
            lemma_shr16_i64(self.0);
        }
        self.0 >> Self::FRACTION_BITS
    }

    /// The raw representation; no scaling is removed.
    pub fn into_raw_i64(self) -> (r: i64)
        ensures
            r == self.raw(),
    {
        self.0
    }

    /// The fractional part, `self - floor(self)`: the low raw bits, never negative.
    pub open spec fn spec_frac(self) -> SignedFractionNum {
        Self::spec_from_raw(self.raw() % 65536)
    }

    pub fn frac(self) -> (r: SignedFractionNum)
        ensures
            r == self.spec_frac(),
    {
        let raw = self.0;
        let low = raw & 0xffff;
        assert(low == raw % 65536) by (bit_vector)
            requires
                low == raw & 0xffff,
        ;
        SignedFractionNum(low)
    }

    /// Absolute value; wraps like the other operations, so the most negative
    /// raw value is returned unchanged.
    pub fn abs(self) -> (r: SignedFractionNum)
        ensures
            r == self.spec_abs(),
    {
        if self.0 == i64::MIN {
            self
        } else if self.0 < 0 {
            SignedFractionNum(-self.0)
        } else {
            self
        }
    }
}

pub broadcast group group_signed_fraction_num {
    SignedFractionNum::lemma_raw_from_raw,
    SignedFractionNum::lemma_from_raw_raw,
}

impl From<i64> for SignedFractionNum {
    fn from(n: i64) -> (r: SignedFractionNum) {
        SignedFractionNum::new(n)
    }
}

impl vstd::std_specs::convert::FromSpecImpl<i64> for SignedFractionNum {
    open spec fn obeys_from_spec() -> bool {
        true
    }

    open spec fn from_spec(n: i64) -> SignedFractionNum {
        SignedFractionNum::spec_new(n)
    }
}

impl From<SignedFractionNum> for i64 {
    fn from(n: SignedFractionNum) -> (r: i64) {
        n.into_i64()
    }
}

impl vstd::std_specs::convert::FromSpecImpl<SignedFractionNum> for i64 {
    open spec fn obeys_from_spec() -> bool {
        true
    }

    open spec fn from_spec(n: SignedFractionNum) -> i64 {
        n.spec_to_integer()
    }
}

impl core::ops::Add for SignedFractionNum {
    type Output = SignedFractionNum;

    fn add(self, rhs: SignedFractionNum) -> (r: SignedFractionNum) {
        proof {
            lemma_wrapping_add_i64(self.0, rhs.0);
        }
        SignedFractionNum(self.0.wrapping_add(rhs.0))
    }
}

impl vstd::std_specs::ops::AddSpecImpl for SignedFractionNum {
    open spec fn obeys_add_spec() -> bool {
        true
    }

    open spec fn add_req(self, rhs: SignedFractionNum) -> bool {
        true
    }

    open spec fn add_spec(self, rhs: SignedFractionNum) -> SignedFractionNum {
        self.spec_add(rhs)
    }
}

impl core::ops::AddAssign for SignedFractionNum {
    fn add_assign(&mut self, rhs: SignedFractionNum)
        ensures
            *final(self) == old(self).spec_add(rhs),
    {
        *self = *self + rhs;
    }
}

impl core::ops::Add<i64> for SignedFractionNum {
    type Output = SignedFractionNum;

    fn add(self, rhs: i64) -> (r: SignedFractionNum) {
        proof {
            lemma_add_wrapped_i64(self.0, rhs);
        }
        self + Self::new(rhs)
    }
}

impl vstd::std_specs::ops::AddSpecImpl<i64> for SignedFractionNum {
    open spec fn obeys_add_spec() -> bool {
        true
    }

    open spec fn add_req(self, rhs: i64) -> bool {
        true
    }

    open spec fn add_spec(self, rhs: i64) -> SignedFractionNum {
        self.spec_add_int(rhs)
    }
}

impl core::ops::AddAssign<i64> for SignedFractionNum {
    fn add_assign(&mut self, rhs: i64)
        ensures
            *final(self) == old(self).spec_add_int(rhs),
    {
        *self = *self + rhs;
    }
}

impl core::ops::Sub for SignedFractionNum {
    type Output = SignedFractionNum;

    fn sub(self, rhs: SignedFractionNum) -> (r: SignedFractionNum) {
        proof {
            lemma_wrapping_sub_i64(self.0, rhs.0);
        }
        SignedFractionNum(self.0.wrapping_sub(rhs.0))
    }
}

impl vstd::std_specs::ops::SubSpecImpl for SignedFractionNum {
    open spec fn obeys_sub_spec() -> bool {
        true
    }

    open spec fn sub_req(self, rhs: SignedFractionNum) -> bool {
        true
    }

    open spec fn sub_spec(self, rhs: SignedFractionNum) -> SignedFractionNum {
        self.spec_sub(rhs)
    }
}

impl core::ops::SubAssign for SignedFractionNum {
    fn sub_assign(&mut self, rhs: SignedFractionNum)
        ensures
            *final(self) == old(self).spec_sub(rhs),
    {
        *self = *self - rhs;
    }
}

impl core::ops::Sub<i64> for SignedFractionNum {
    type Output = SignedFractionNum;

    fn sub(self, rhs: i64) -> (r: SignedFractionNum) {
        proof {
            lemma_add_wrapped_i64(self.0, rhs);
        }
        self - Self::new(rhs)
    }
}

impl vstd::std_specs::ops::SubSpecImpl<i64> for SignedFractionNum {
    open spec fn obeys_sub_spec() -> bool {
        true
    }

    open spec fn sub_req(self, rhs: i64) -> bool {
        true
    }

    open spec fn sub_spec(self, rhs: i64) -> SignedFractionNum {
        self.spec_sub_int(rhs)
    }
}

impl core::ops::SubAssign<i64> for SignedFractionNum {
    fn sub_assign(&mut self, rhs: i64)
        ensures
            *final(self) == old(self).spec_sub_int(rhs),
    {
        *self = *self - rhs;
    }
}

impl core::ops::Mul<i64> for SignedFractionNum {
    type Output = SignedFractionNum;

    fn mul(self, rhs: i64) -> (r: SignedFractionNum) {
        proof {
            lemma_wrapping_mul_i64(self.0, rhs);
        }
        SignedFractionNum(self.0.wrapping_mul(rhs))
    }
}

impl vstd::std_specs::ops::MulSpecImpl<i64> for SignedFractionNum {
    open spec fn obeys_mul_spec() -> bool {
        true
    }

    open spec fn mul_req(self, rhs: i64) -> bool {
        true
    }

    open spec fn mul_spec(self, rhs: i64) -> SignedFractionNum {
        self.spec_mul_int(rhs)
    }
}

impl core::ops::MulAssign<i64> for SignedFractionNum {
    fn mul_assign(&mut self, rhs: i64)
        ensures
            *final(self) == old(self).spec_mul_int(rhs),
    {
        *self = *self * rhs;
    }
}

impl core::ops::Mul<SignedFractionNum> for SignedFractionNum {
    type Output = SignedFractionNum;

    fn mul(self, rhs: SignedFractionNum) -> (r: SignedFractionNum) {
        let a = self.0;
        let b = rhs.0;
        assert(-0x4000_0000_0000_0000_0000_0000_0000_0000int <= a * b
            <= 0x4000_0000_0000_0000_0000_0000_0000_0000int) by (nonlinear_arith)
            requires
                -0x8000_0000_0000_0000int <= a <= 0x8000_0000_0000_0000int,
                -0x8000_0000_0000_0000int <= b <= 0x8000_0000_0000_0000int,
        ;
        let wide: i128 = (a as i128) * (b as i128);
        let shifted: i128 = wide >> 16u32;
        assert(shifted == wide / 65536) by (bit_vector)
            requires
                shifted == wide >> 16u32,
        ;
        let narrowed: i64 = #[verifier::truncate] (shifted as i64);
        SignedFractionNum(narrowed)
    }
}

impl vstd::std_specs::ops::MulSpecImpl<SignedFractionNum> for SignedFractionNum {
    open spec fn obeys_mul_spec() -> bool {
        true
    }

    open spec fn mul_req(self, rhs: SignedFractionNum) -> bool {
        true
    }

    open spec fn mul_spec(self, rhs: SignedFractionNum) -> SignedFractionNum {
        self.spec_mul(rhs)
    }
}

impl core::ops::MulAssign<SignedFractionNum> for SignedFractionNum {
    fn mul_assign(&mut self, rhs: SignedFractionNum)
        ensures
            *final(self) == old(self).spec_mul(rhs),
    {
        *self = *self * rhs;
    }
}

impl core::ops::Div<i64> for SignedFractionNum {
    type Output = SignedFractionNum;

    fn div(self, rhs: i64) -> (r: SignedFractionNum) {
        proof {
            let x = self.0 as int;
            let d = rhs as int;
            lemma_div_bounded(if x >= 0 { x } else { -x }, if d >= 0 { d } else { -d });
        }
        let quotient = self.0.checked_div(rhs);
        SignedFractionNum(quotient.unwrap())
    }
}

impl vstd::std_specs::ops::DivSpecImpl<i64> for SignedFractionNum {
    open spec fn obeys_div_spec() -> bool {
        true
    }

    /// Division by zero is a program error, and so is the one quotient that
    /// does not fit (the most negative raw value divided by -1).
    open spec fn div_req(self, rhs: i64) -> bool {
        rhs != 0 && !(self.raw() == i64::MIN && rhs == -1)
    }

    open spec fn div_spec(self, rhs: i64) -> SignedFractionNum {
        self.spec_div_int(rhs)
    }
}

impl core::ops::DivAssign<i64> for SignedFractionNum {
    fn div_assign(&mut self, rhs: i64)
        requires
            rhs != 0,
            !(old(self).raw() == i64::MIN && rhs == -1),
        ensures
            *final(self) == old(self).spec_div_int(rhs),
    {
        *self = *self / rhs;
    }
}

impl core::ops::Div<SignedFractionNum> for SignedFractionNum {
    type Output = SignedFractionNum;

    fn div(self, rhs: SignedFractionNum) -> (r: SignedFractionNum) {
        let shifted: i128 = (self.0 as i128) * 65536;
        let quotient = shifted.checked_div(rhs.0 as i128);
        let narrowed: i64 = #[verifier::truncate] (quotient.unwrap() as i64);
        SignedFractionNum(narrowed)
    }
}

impl vstd::std_specs::ops::DivSpecImpl<SignedFractionNum> for SignedFractionNum {
    open spec fn obeys_div_spec() -> bool {
        true
    }

    /// Division by a zero value is a program error.
    open spec fn div_req(self, rhs: SignedFractionNum) -> bool {
        rhs.raw() != 0
    }

    open spec fn div_spec(self, rhs: SignedFractionNum) -> SignedFractionNum {
        self.spec_div(rhs)
    }
}

impl core::ops::DivAssign<SignedFractionNum> for SignedFractionNum {
    fn div_assign(&mut self, rhs: SignedFractionNum)
        requires
            rhs.raw() != 0,
        ensures
            *final(self) == old(self).spec_div(rhs),
    {
        *self = *self / rhs;
    }
}

impl core::ops::Shl<u32> for SignedFractionNum {
    type Output = SignedFractionNum;

    fn shl(self, rhs: u32) -> (r: SignedFractionNum) {
        SignedFractionNum(self.0 << rhs)
    }
}

impl vstd::std_specs::ops::ShlSpecImpl<u32> for SignedFractionNum {
    open spec fn obeys_shl_spec() -> bool {
        true
    }

    /// The shift amount is below the width of the raw representation.
    open spec fn shl_req(self, rhs: u32) -> bool {
        rhs < 64
    }

    open spec fn shl_spec(self, rhs: u32) -> SignedFractionNum {
        Self::spec_from_raw(self.raw() << rhs)
    }
}

impl core::ops::Shr<u32> for SignedFractionNum {
    type Output = SignedFractionNum;

    fn shr(self, rhs: u32) -> (r: SignedFractionNum) {
        SignedFractionNum(self.0 >> rhs)
    }
}

impl vstd::std_specs::ops::ShrSpecImpl<u32> for SignedFractionNum {
    open spec fn obeys_shr_spec() -> bool {
        true
    }

    /// The shift amount is below the width of the raw representation.
    open spec fn shr_req(self, rhs: u32) -> bool {
        rhs < 64
    }

    open spec fn shr_spec(self, rhs: u32) -> SignedFractionNum {
        Self::spec_from_raw(self.raw() >> rhs)
    }
}

/// Relies on std's `TryFrom<u64> for i64`: the same value when it fits in an
/// `i64`, an error when it is larger than `i64::MAX`.
pub assume_specification[ <i64 as TryFrom<u64>>::try_from ](v: u64) -> (r: Result<i64, <i64 as TryFrom<u64>>::Error>)
    ensures
        v <= i64::MAX ==> r is Ok && r->Ok_0 == v as i64,
        v > i64::MAX ==> r is Err,
;

/// The unsigned value with the same raw representation, when there is one.
pub open spec fn spec_to_unsigned(value: SignedFractionNum) -> Option<FractionNum> {
    if value.raw() >= 0 {
        Some(FractionNum::spec_from_raw(value.raw() as u64))
    } else {
        None
    }
}

/// The signed value with the same raw representation, when there is one.
pub open spec fn spec_to_signed(value: FractionNum) -> Option<SignedFractionNum> {
    if value.raw() <= i64::MAX {
        Some(SignedFractionNum::spec_from_raw(value.raw() as i64))
    } else {
        None
    }
}

impl TryFrom<SignedFractionNum> for FractionNum {
    type Error = core::num::TryFromIntError;

    fn try_from(value: SignedFractionNum) -> (r: Result<FractionNum, core::num::TryFromIntError>)
        ensures
            r is Ok <==> spec_to_unsigned(value) is Some,
            r is Ok ==> r->Ok_0 == spec_to_unsigned(value)->Some_0,
    {
        match u64::try_from(value.0) {
            Ok(x) => Ok(FractionNum::from_raw_u64(x)),
            Err(err) => Err(err),
        }
    }
}

impl vstd::std_specs::convert::TryFromSpecImpl<SignedFractionNum> for FractionNum {
    open spec fn obeys_try_from_spec() -> bool {
        false
    }

    open spec fn try_from_spec(value: SignedFractionNum) -> Result<FractionNum, core::num::TryFromIntError> {
        arbitrary()
    }
}

impl TryFrom<FractionNum> for SignedFractionNum {
    type Error = core::num::TryFromIntError;

    fn try_from(value: FractionNum) -> (r: Result<SignedFractionNum, core::num::TryFromIntError>)
        ensures
            r is Ok <==> spec_to_signed(value) is Some,
            r is Ok ==> r->Ok_0 == spec_to_signed(value)->Some_0,
    {
        match i64::try_from(value.0) {
            Ok(x) => Ok(SignedFractionNum::from_raw_i64(x)),
            Err(err) => Err(err),
        }
    }
}

impl vstd::std_specs::convert::TryFromSpecImpl<FractionNum> for SignedFractionNum {
    open spec fn obeys_try_from_spec() -> bool {
        false
    }

    open spec fn try_from_spec(value: FractionNum) -> Result<SignedFractionNum, core::num::TryFromIntError> {
        arbitrary()
    }
}

} // verus!

verus! {

/// Constructing an unsigned value from an integer below `2^48` and taking its
/// integer part gives the integer back.
pub proof fn lemma_unsigned_new_to_integer(n: u64)
    requires
        n < 0x1_0000_0000_0000,
    ensures
        FractionNum::spec_new(n).spec_to_integer() == n,
{
    broadcast use group_fraction_num, group_signed_fraction_num;
}

/// Constructing a signed value from an integer in `[-2^47, 2^47)` and taking
/// its integer part gives the integer back.
pub proof fn lemma_signed_new_to_integer(n: i64)
    requires
        -0x8000_0000_0000 <= n < 0x8000_0000_0000,
    ensures
        SignedFractionNum::spec_new(n).spec_to_integer() == n,
{
    broadcast use group_fraction_num, group_signed_fraction_num;
}

/// Adding and subtracting the same unsigned value are exact inverses.
pub proof fn lemma_unsigned_add_sub_inverse(a: FractionNum, b: FractionNum)
    ensures
        a.spec_add(b).spec_sub(b) == a,
        a.spec_sub(b).spec_add(b) == a,
{
    broadcast use group_fraction_num, group_signed_fraction_num;

    let x = a.raw();
    let y = b.raw();
    assert((((x + y) as u64 - y) as u64) == x) by (bit_vector);
    assert((((x - y) as u64 + y) as u64) == x) by (bit_vector);
}

/// Adding and subtracting the same signed value are exact inverses.
pub proof fn lemma_signed_add_sub_inverse(a: SignedFractionNum, b: SignedFractionNum)
    ensures
        a.spec_add(b).spec_sub(b) == a,
        a.spec_sub(b).spec_add(b) == a,
{
    broadcast use group_fraction_num, group_signed_fraction_num;

    let x = a.raw();
    let y = b.raw();
    assert((((x + y) as i64 - y) as i64) == x) by (bit_vector);
    assert((((x - y) as i64 + y) as i64) == x) by (bit_vector);
}

/// Every division form demands a nonzero divisor: dividing by zero is never
/// a call that returns.
pub proof fn lemma_division_by_zero_refused(u: FractionNum, s: SignedFractionNum)
    ensures
        !vstd::std_specs::ops::DivSpec::div_req(u, 0u64),
        !vstd::std_specs::ops::DivSpec::div_req(u, FractionNum::spec_new(0)),
        !vstd::std_specs::ops::DivSpec::div_req(s, 0i64),
        !vstd::std_specs::ops::DivSpec::div_req(s, SignedFractionNum::spec_new(0)),
{
    broadcast use group_fraction_num, group_signed_fraction_num;
}

/// A negative signed value has no unsigned counterpart, an unsigned value above
/// the signed range has no signed counterpart, and a value in the range both
/// share converts there and back unchanged.
pub proof fn lemma_conversion_range(s: SignedFractionNum, u: FractionNum)
    ensures
        s.raw() < 0 ==> spec_to_unsigned(s) is None,
        u.raw() > i64::MAX ==> spec_to_signed(u) is None,
        s.raw() >= 0 ==> spec_to_unsigned(s) is Some && spec_to_signed(spec_to_unsigned(s)->Some_0)
            == Some(s),
        u.raw() <= i64::MAX ==> spec_to_signed(u) is Some && spec_to_unsigned(spec_to_signed(u)->Some_0)
            == Some(u),
{
    broadcast use group_fraction_num, group_signed_fraction_num;
}

/// The absolute value is never negative, except for the most negative raw
/// value, which is its own absolute value; and `abs(x) == abs(0 - x)`.
pub proof fn lemma_abs_symmetric(x: SignedFractionNum)
    ensures
        x.raw() != i64::MIN ==> x.spec_abs().raw() >= 0,
        x.raw() == i64::MIN ==> x.spec_abs() == x,
        x.spec_abs() == SignedFractionNum::spec_new(0).spec_sub(x).spec_abs(),
{
    broadcast use group_fraction_num, group_signed_fraction_num;

    let y = x.raw();
    assert(y != i64::MIN ==> ((0i64 - y) as i64) == -y) by (bit_vector);
    assert(y == i64::MIN ==> ((0i64 - y) as i64) == y) by (bit_vector);
}

/// Floor division of `a * b - r` by `b`, for a remainder-sized `r`.
proof fn lemma_floor_div_near(a: int, b: int, r: int)
    requires
        b > 0,
        0 <= r < b,
    ensures
        r == 0 ==> (a * b - r) / b == a,
        r > 0 ==> (a * b - r) / b == a - 1,
        (a * b + r) / b == a,
{
    vstd::arithmetic::div_mod::lemma_fundamental_div_mod_converse(a * b + r, b, a, r);
    if r == 0 {
        vstd::arithmetic::div_mod::lemma_fundamental_div_mod_converse(a * b - r, b, a, 0);
    } else {
        assert((a - 1) * b + (b - r) == a * b - r) by (nonlinear_arith);
        vstd::arithmetic::div_mod::lemma_fundamental_div_mod_converse(a * b - r, b, a - 1, b - r);
    }
}

/// Multiplying by an unsigned value of at least one and dividing by it again
/// gives the first factor back within one raw unit, when the product does not wrap.
pub proof fn lemma_unsigned_mul_div_near(a: FractionNum, b: FractionNum)
    requires
        b.raw() >= 65536,
        (a.raw() * b.raw()) / 65536 <= u64::MAX,
    ensures
        a.raw() - 1 <= a.spec_mul(b).spec_div(b).raw() <= a.raw(),
{
    broadcast use group_fraction_num, group_signed_fraction_num;

    let x = a.raw() as int;
    let y = b.raw() as int;
    let m = (x * y) / 65536;
    let r = (x * y) % 65536;
    vstd::arithmetic::div_mod::lemma_fundamental_div_mod(x * y, 65536);
    assert(0 <= x * y) by (nonlinear_arith)
        requires
            x >= 0,
            y >= 0,
    ;
    assert(a.spec_mul(b).raw() == m);
    assert(m * 65536 == x * y - r);
    lemma_floor_div_near(x, y, r);
}

/// Multiplying by a signed value of magnitude at least one and dividing by it
/// again gives the first factor back within one raw unit, when the product does not wrap.
pub proof fn lemma_signed_mul_div_near(a: SignedFractionNum, b: SignedFractionNum)
    requires
        b.raw() >= 65536 || b.raw() <= -65536,
        i64::MIN <= (a.raw() * b.raw()) / 65536 <= i64::MAX,
    ensures
        a.raw() - 1 <= a.spec_mul(b).spec_div(b).raw() <= a.raw() + 1,
{
    broadcast use group_fraction_num, group_signed_fraction_num;

    let x = a.raw() as int;
    let y = b.raw() as int;
    let m = (x * y) / 65536;
    let r = (x * y) % 65536;
    vstd::arithmetic::div_mod::lemma_fundamental_div_mod(x * y, 65536);
    assert(a.spec_mul(b).raw() == m);
    let n = m * 65536;
    assert(n == x * y - r);
    let t = trunc_div(n, y);
    if y > 0 {
        lemma_floor_div_near(x, y, r);
        if n >= 0 {
            assert(x >= 0) by (nonlinear_arith)
                requires
                    x * y - r >= 0,
                    y > 0,
                    r >= 0,
            ;
        } else {
            assert(-n == (-x) * y + r) by (nonlinear_arith)
                requires
                    n == x * y - r,
            ;
            lemma_floor_div_near(-x, y, r);
        }
    } else {
        let c = -y;
        assert(n == (-x) * c - r && -n == x * c + r) by (nonlinear_arith)
            requires
                n == x * y - r,
                c == -y,
        ;
        lemma_floor_div_near(-x, c, r);
        lemma_floor_div_near(x, c, r);
        if n >= 0 {
            assert(x <= 0) by (nonlinear_arith)
                requires
                    x * y - r >= 0,
                    y < 0,
                    r >= 0,
            ;
        }
    }
    assert(x - 1 <= t <= x + 1);
    assert(i64::MIN <= t <= i64::MAX);
}

} // verus!
