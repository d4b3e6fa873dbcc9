//! The numeric domain: IEEE 754 binary32 values carried as raw `u32` bit
//! patterns.
//!
//! The four rounding arithmetic operations, decimal parsing and decimal
//! rendering are performed by outside software-float routines behind trusted
//! wrappers; each result is named by an uninterpreted spec function, so that
//! every caller's contract is exact up to those names. Everything that can
//! be read off a bit pattern directly — the zero test, the "is an integral
//! value" test and the integer-exponent power loop built from multiplication
//! — is ordinary verified code.

use vstd::prelude::*;

use rustc_apfloat::ieee::Single;
use rustc_apfloat::Float;

verus! {

/// The bit pattern of binary32 `1.0`.
pub const ONE_BITS: u32 = 0x3f80_0000;

// ---------------------------------------------------------------------------
// Names for the results of the outside binary32 routines. Each is a pure
// function of its arguments: IEEE 754 fixes every one of these operations
// bit for bit (round to nearest, ties to even).
// ---------------------------------------------------------------------------

pub uninterp spec fn add_bits(a: u32, b: u32) -> u32;

pub uninterp spec fn sub_bits(a: u32, b: u32) -> u32;

pub uninterp spec fn mul_bits(a: u32, b: u32) -> u32;

pub uninterp spec fn div_bits(a: u32, b: u32) -> u32;

/// General real-valued exponentiation, used when the exponent is not an
/// integral value.
pub uninterp spec fn pow_bits(a: u32, b: u32) -> u32;

/// The decimal rendering of a binary32 value.
pub uninterp spec fn rendered(bits: u32) -> Seq<char>;

/// The binary32 value (correctly rounded) of a decimal literal, or `None`
/// when the text is not a recognized literal.
pub uninterp spec fn number_bits(text: Seq<char>) -> Option<u32>;

// ---------------------------------------------------------------------------
// Bit-pattern structure of a binary32 value.
// ---------------------------------------------------------------------------

/// The sign bit.
pub open spec fn sign_bit(b: u32) -> bool {
    b >> 31 == 1
}

/// The biased exponent field (8 bits).
pub open spec fn exp_field(b: u32) -> u32 {
    (b >> 23) & 0xff
}

/// The fraction field (23 bits).
pub open spec fn frac_field(b: u32) -> u32 {
    b & 0x7f_ffff
}

/// Whether the value is a zero (of either sign). This is exactly the set of
/// values that compare equal to `0.0`.
pub open spec fn is_zero_bits(b: u32) -> bool {
    b & 0x7fff_ffff == 0
}

/// Whether the value is integral and survives the saturating round trip
/// through a 32-bit signed integer (truncating cast to `i32`, then back).
///
/// Reading the fields directly: a zero always does; a magnitude below one
/// never does (it truncates to zero); for biased exponents up to 149 the
/// low bits of the significand that sit behind the binary point must all be
/// zero; from 150 to 157 every value is an integer within range; at 158
/// only the two values of magnitude exactly 2^31 survive the saturating
/// cast; above that (including infinities and NaNs) nothing does.
pub open spec fn is_int_bits(b: u32) -> bool {
    let e = exp_field(b);
    if is_zero_bits(b) {
        true
    } else if e < 127 {
        false
    } else if e < 150 {
        frac_field(b) % (1u32 << ((150 - e) as u32)) == 0
    } else if e < 158 {
        true
    } else if e == 158 {
        frac_field(b) == 0
    } else {
        false
    }
}

/// The integer magnitude of an integral binary32 value: the significand
/// shifted to its binary point.
pub open spec fn int_mag_bits(b: u32) -> u32 {
    let e = exp_field(b);
    let sig = frac_field(b) | 0x80_0000u32;
    if is_zero_bits(b) {
        0
    } else if e >= 150 {
        sig << ((e - 150) as u32)
    } else {
        sig >> ((150 - e) as u32)
    }
}

/// The magnitude after the saturating cast to `i32`: a positive 2^31
/// saturates to `i32::MAX`; everything else integral is in range.
pub open spec fn exponent_count(b: u32) -> u32 {
    let m = int_mag_bits(b);
    if !sign_bit(b) && m == 0x8000_0000u32 {
        0x7fff_ffff
    } else {
        m
    }
}

/// Repeated binary32 multiplication: `base` taken `n` times, starting from
/// `1.0`, folding from the left.
pub open spec fn pow_count_bits(base: u32, n: nat) -> u32
    decreases n,
{
    if n == 0 {
        ONE_BITS
    } else {
        mul_bits(pow_count_bits(base, (n - 1) as nat), base)
    }
}

/// The power operation: an integral exponent takes the integer-exponent
/// path (repeated multiplication, with a negative exponent folded through a
/// final reciprocal); any other exponent takes the general real-valued
/// path.
pub open spec fn power_bits(a: u32, b: u32) -> u32 {
    if is_int_bits(b) {
        if sign_bit(b) {
            div_bits(ONE_BITS, pow_count_bits(a, exponent_count(b) as nat))
        } else {
            pow_count_bits(a, exponent_count(b) as nat)
        }
    } else {
        pow_bits(a, b)
    }
}

// ---------------------------------------------------------------------------
// Trusted wrappers around the outside binary32 routines.
// ---------------------------------------------------------------------------

/// Relies on rustc_apfloat's `Add for ieee::Single`: correctly rounded
/// IEEE 754 binary32 addition on bit patterns.
#[verifier::external_body]
pub(crate) fn bits_add(a: u32, b: u32) -> (r: u32)
    ensures
        r == add_bits(a, b),
{
    (Single::from_bits(a as u128) + Single::from_bits(b as u128)).value.to_bits() as u32
}

/// Relies on rustc_apfloat's `Sub for ieee::Single`: correctly rounded
/// IEEE 754 binary32 subtraction on bit patterns.
#[verifier::external_body]
pub(crate) fn bits_sub(a: u32, b: u32) -> (r: u32)
    ensures
        r == sub_bits(a, b),
{
    (Single::from_bits(a as u128) - Single::from_bits(b as u128)).value.to_bits() as u32
}

/// Relies on rustc_apfloat's `Mul for ieee::Single`: correctly rounded
/// IEEE 754 binary32 multiplication on bit patterns.
#[verifier::external_body]
pub(crate) fn bits_mul(a: u32, b: u32) -> (r: u32)
    ensures
        r == mul_bits(a, b),
{
    (Single::from_bits(a as u128) * Single::from_bits(b as u128)).value.to_bits() as u32
}

/// Relies on rustc_apfloat's `Div for ieee::Single`: correctly rounded
/// IEEE 754 binary32 division on bit patterns (a zero divisor yields an
/// infinity or a NaN, never a panic).
#[verifier::external_body]
pub(crate) fn bits_div(a: u32, b: u32) -> (r: u32)
    ensures
        r == div_bits(a, b),
{
    (Single::from_bits(a as u128) / Single::from_bits(b as u128)).value.to_bits() as u32
}

/// Relies on `libm::powf`: binary32 real-valued exponentiation; the
/// arguments and the result are passed as bit patterns.
#[verifier::external_body]
pub(crate) fn bits_pow_general(a: u32, b: u32) -> (r: u32)
    ensures
        r == pow_bits(a, b),
{
    bytemuck::cast(libm::powf(bytemuck::cast(a), bytemuck::cast(b)))
}

/// Relies on rustc_apfloat's `Display for ieee::Single`: the decimal
/// rendering of a binary32 value, shortest form that identifies the value,
/// a function of the bit pattern alone.
#[verifier::external_body]
pub(crate) fn bits_render(bits: u32) -> (r: String)
    ensures
        r@ == rendered(bits),
{
    format!("{}", Single::from_bits(bits as u128))
}

/// Whether the text is a plain decimal literal: one or more digits,
/// optionally followed by a point and one or more digits.
pub open spec fn is_number_literal(text: Seq<char>) -> bool {
    exists|k: int|
        1 <= k <= text.len() && (forall|i: int| 0 <= i < k ==> is_digit_char(#[trigger] text[i]))
            && (k == text.len() || (k < text.len() - 1 && text[k] == '.' && forall|i: int|
            k < i < text.len() ==> is_digit_char(#[trigger] text[i])))
}

/// Whether the character is a decimal digit.
pub open spec fn is_digit_char(c: char) -> bool {
    '0' <= c && c <= '9'
}

/// Relies on rustc_apfloat's `FromStr for ieee::Single`: parses a decimal
/// literal to the correctly rounded binary32 value; every plain decimal
/// literal is accepted.
#[verifier::external_body]
pub(crate) fn bits_from_literal(text: &str) -> (r: Option<u32>)
    ensures
        r == number_bits(text@),
        is_number_literal(text@) ==> r is Some,
{
    match text.parse::<Single>() {
        Ok(v) => Some(v.to_bits() as u32),
        Err(_) => None,
    }
}

// ---------------------------------------------------------------------------
// Verified executable counterparts of the bit-pattern functions.
// ---------------------------------------------------------------------------

/// Whether the value is a zero (of either sign).
pub fn is_zero_exec(b: u32) -> (r: bool)
    ensures
        r == is_zero_bits(b),
{
    b & 0x7fff_ffff == 0
}

/// Whether the value is integral within the saturating `i32` round trip.
pub fn is_int_exec(b: u32) -> (r: bool)
    ensures
        r == is_int_bits(b),
{
    let e = (b >> 23) & 0xff;
    let frac = b & 0x7f_ffff;
    if b & 0x7fff_ffff == 0 {
        true
    } else if e < 127 {
        false
    } else if e < 150 {
        let k: u32 = 150 - e;
        let p = 1u32 << k;
        assert(p > 0) by (bit_vector)
            requires
                p == 1u32 << k && k < 32,
        ;
        frac % p == 0
    } else if e < 158 {
        true
    } else if e == 158 {
        frac == 0
    } else {
        false
    }
}

/// The loop count for the integer-exponent path.
fn exponent_count_exec(b: u32) -> (r: u32)
    requires
        is_int_bits(b),
    ensures
        r == exponent_count(b),
{
    let e = (b >> 23) & 0xff;
    let sig = (b & 0x7f_ffff) | 0x80_0000u32;
    let m: u32 = if b & 0x7fff_ffff == 0 {
        0
    } else if e >= 150 {
        assert(e <= 158);
        sig << (e - 150)
    } else {
        sig >> (150 - e)
    };
    if !(b >> 31 == 1) && m == 0x8000_0000u32 {
        0x7fff_ffff
    } else {
        m
    }
}

/// The power operation over bit patterns: the integer-exponent path is a
/// verified multiplication loop; the general path is the outside routine.
pub fn power_exec(a: u32, b: u32) -> (r: u32)
    ensures
        r == power_bits(a, b),
{
    if is_int_exec(b) {
        let n = exponent_count_exec(b);
        let mut acc: u32 = ONE_BITS;
        let mut i: u32 = 0;
        while i < n
            invariant
                i <= n,
                acc == pow_count_bits(a, i as nat),
            decreases n - i,
        {
            acc = bits_mul(acc, a);
            i = i + 1;
        }
        if b >> 31 == 1 {
            bits_div(ONE_BITS, acc)
        } else {
            acc
        }
    } else {
        bits_pow_general(a, b)
    }
}

} // verus!
