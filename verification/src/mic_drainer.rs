//! Recognising the Pico Connect virtual microphone and measuring the level of
//! what is read from it.
use vstd::prelude::*;
use vstd::string::*;

use crate::text::{contains_text, str_contains};

verus! {

/// Name for what `str::to_lowercase` returns for `s` (Unicode lowercase mapping).
pub uninterp spec fn unicode_lowercase(s: Seq<char>) -> Seq<char>;

/// Calls `str::to_lowercase`. The contract names the result; the Unicode case
/// tables behind it are not stated.
#[verifier::external_body]
fn lowercase(s: &str) -> (r: String)
    ensures
        r@ == unicode_lowercase(s@),
{
    s.to_lowercase()
}

/// The word that identifies the Pico Connect virtual microphone.
pub open spec fn device_keyword() -> Seq<char> {
    "picostreaming"@
}

/// Whether an already lowercased device name contains `picostreaming`.
pub fn lowered_name_matches(lowered: &str) -> (r: bool)
    ensures
        r == contains_text(lowered@, device_keyword()),
        r == contains_text(lowered@, "picostreaming"@),
{
    str_contains(lowered, "picostreaming")
}

/// Whether a recording device is the Pico Connect microphone: its name,
/// lowercased, contains `picostreaming`.
pub fn device_name_matches(name: &str) -> (r: bool)
    ensures
        r == contains_text(unicode_lowercase(name@), device_keyword()),
        r == contains_text(unicode_lowercase(name@), "picostreaming"@),
{
    let lowered = lowercase(name);
    lowered_name_matches(lowered.as_str())
}

/// `|x|` of a sample.
pub open spec fn magnitude(x: i16) -> nat {
    if x < 0 {
        (-(x as int)) as nat
    } else {
        x as nat
    }
}

/// The largest magnitude among `s`, 0 for none.
pub open spec fn peak_magnitude(s: Seq<i16>) -> nat
    decreases s.len(),
{
    if s.len() == 0 {
        0
    } else {
        let p = peak_magnitude(s.drop_last());
        let m = magnitude(s.last());
        if p >= m {
            p
        } else {
            m
        }
    }
}

/// The largest magnitude among `samples` (0 when there are none). It reaches
/// 32768 for a block holding `i16::MIN`; [`peak_level_i16`] bounds it for levels.
pub fn peak_magnitude_i16(samples: &[i16]) -> (r: u16)
    ensures
        r == peak_magnitude(samples@),
{
    let mut peak: u16 = 0;
    let mut i: usize = 0;
    while i < samples.len()
        invariant
            i <= samples.len(),
            peak == peak_magnitude(samples@.take(i as int)),
        decreases samples.len() - i,
    {
        let x = samples[i];
        let m: u16 = if x < 0 {
            (0 - (x as i32)) as u16
        } else {
            x as u16
        };
        assert(samples@.take(i + 1).drop_last() =~= samples@.take(i as int));
        if m > peak {
            peak = m;
        }
        i += 1;
    }
    assert(samples@.take(samples@.len() as int) =~= samples@);
    peak
}

/// The numerator of a block's level: the largest magnitude, at most `i16::MAX`.
pub open spec fn peak_level(s: Seq<i16>) -> nat {
    if peak_magnitude(s) > 32767 {
        32767
    } else {
        peak_magnitude(s)
    }
}

/// The level of a block on the scale 0..=`i16::MAX`: divided by `i16::MAX` it
/// is the block's 0.0-1.0 peak level (0 when there are no samples).
pub fn peak_level_i16(samples: &[i16]) -> (r: u16)
    ensures
        r == peak_level(samples@),
        r <= 32767,
{
    let m = peak_magnitude_i16(samples);
    if m > 32767 {
        32767
    } else {
        m
    }
}

} // verus!
