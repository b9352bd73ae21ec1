//! Integer parsing for attribute values, through the `atoi_simd` crate.
//!
//! The contracts here describe the crate's portable byte-loop path, the one
//! this build compiles (no wide-vector target features), on a platform
//! whose `usize` is 64 bits wide. Under wide-vector builds the crate caps
//! zero-padded digit runs earlier, and on a 32-bit platform the `usize`
//! bounds differ.

use vstd::prelude::*;

use crate::text::{digits_range, digits_value_range};

verus! {

/// Relies on `atoi_simd::parse::<u32>` without sign or zero skipping: it
/// returns the value when the whole slice is decimal digits and the value
/// fits the type, and errors otherwise.
#[verifier::external_body]
pub fn parse_u32_text(s: &str) -> (r: Option<u32>)
    ensures
        r is Some <==> (digits_range(s@, 0, s@.len() as int) && digits_value_range(
            s@,
            0,
            s@.len() as int,
        ) <= u32::MAX),
        r is Some ==> r->0 == digits_value_range(s@, 0, s@.len() as int),
{
    atoi_simd::parse::<u32, false, false>(s.as_bytes()).ok()
}

/// Relies on `atoi_simd::parse::<u8>` without sign or zero skipping: it
/// returns the value when the whole slice is decimal digits and the value
/// fits the type, and errors otherwise.
#[verifier::external_body]
pub fn parse_u8_text(s: &str) -> (r: Option<u8>)
    ensures
        r is Some <==> (digits_range(s@, 0, s@.len() as int) && digits_value_range(
            s@,
            0,
            s@.len() as int,
        ) <= u8::MAX),
        r is Some ==> r->0 == digits_value_range(s@, 0, s@.len() as int),
{
    atoi_simd::parse::<u8, false, false>(s.as_bytes()).ok()
}

/// Relies on `atoi_simd::parse::<usize>` without sign or zero skipping: it
/// returns the value when the whole slice is decimal digits of at most the
/// type's maximum spelling length and the value fits, and errors otherwise.
#[verifier::external_body]
pub fn parse_usize_text(s: &str) -> (r: Option<usize>)
    ensures
        r is Some <==> (digits_range(s@, 0, s@.len() as int) && s@.len() <= 20 && digits_value_range(
            s@,
            0,
            s@.len() as int,
        ) <= usize::MAX),
        r is Some ==> r->0 == digits_value_range(s@, 0, s@.len() as int),
{
    atoi_simd::parse::<usize, false, false>(s.as_bytes()).ok()
}

} // verus!
