//! Mapping elapsed playback time to a position in the track.

use vstd::prelude::*;

verus! {

/// The sample that is playing after `elapsed_millis` milliseconds at
/// `sample_rate` hertz: seconds times rate, rounded to the nearest integer,
/// halves rounded up.
pub open spec fn sample_index(elapsed_millis: nat, sample_rate: nat) -> nat {
    (elapsed_millis * sample_rate + 500) / 1000
}

/// [`sample_index`], held to the last position of a track of `len` samples.
pub open spec fn clamped_index(elapsed_millis: nat, sample_rate: nat, len: nat) -> nat
    recommends
        len > 0,
{
    if sample_index(elapsed_millis, sample_rate) < len {
        sample_index(elapsed_millis, sample_rate)
    } else {
        (len - 1) as nat
    }
}

/// A whole number of seconds maps to that many times the sample rate.
pub proof fn lemma_index_of_whole_seconds(seconds: nat, sample_rate: nat)
    ensures
        sample_index(seconds * 1000, sample_rate) == seconds * sample_rate,
{
    let product = seconds * sample_rate;
    assert(seconds * 1000 * sample_rate == product * 1000) by (nonlinear_arith)
        requires
            product == seconds * sample_rate,
    ;
    assert((product * 1000 + 500) / 1000 == product) by (nonlinear_arith);
}

/// The position never runs backward as time passes.
pub proof fn lemma_index_monotonic(earlier: nat, later: nat, sample_rate: nat)
    requires
        earlier <= later,
    ensures
        sample_index(earlier, sample_rate) <= sample_index(later, sample_rate),
{
    assert(earlier * sample_rate <= later * sample_rate) by (nonlinear_arith)
        requires
            earlier <= later,
    ;
}

/// The clamped position is always inside the track. It is the plain position
/// while that is inside, and the last position from then on.
pub proof fn lemma_clamped_index(elapsed_millis: nat, sample_rate: nat, len: nat)
    requires
        len > 0,
    ensures
        clamped_index(elapsed_millis, sample_rate, len) < len,
        sample_index(elapsed_millis, sample_rate) < len ==> clamped_index(
            elapsed_millis,
            sample_rate,
            len,
        ) == sample_index(elapsed_millis, sample_rate),
        sample_index(elapsed_millis, sample_rate) >= len - 1 ==> clamped_index(
            elapsed_millis,
            sample_rate,
            len,
        ) == len - 1,
{
}

/// The position in a track of `len` samples that is playing after
/// `elapsed_millis` milliseconds, or `None` for a track without samples.
/// Past the end of the track the position stays at the last sample.
pub fn playback_index(elapsed_millis: u128, sample_rate: u32, len: usize) -> (index: Option<usize>)
    ensures
        len == 0 <==> index is None,
        index matches Some(i) ==> i < len && i == clamped_index(
            elapsed_millis as nat,
            sample_rate as nat,
            len as nat,
        ),
{
    if len == 0 {
        return None;
    }
    let last: usize = len - 1;
    let scaled: u128 = match elapsed_millis.checked_mul(sample_rate as u128) {
        Some(product) => match product.checked_add(500) {
            Some(sum) => sum,
            None => {
                proof {
                    lemma_overflow_is_past_end(elapsed_millis as nat, sample_rate as nat, len as nat);
                }
                return Some(last);
            },
        },
        None => {
            proof {
                lemma_overflow_is_past_end(elapsed_millis as nat, sample_rate as nat, len as nat);
            }
            return Some(last);
        },
    };
    let naive: u128 = scaled / 1000;
    if naive < len as u128 {
        Some(naive as usize)
    } else {
        Some(last)
    }
}

/// A scaled time that does not fit in 128 bits lies past the end of any track
/// that fits in memory.
proof fn lemma_overflow_is_past_end(elapsed_millis: nat, sample_rate: nat, len: nat)
    requires
        elapsed_millis * sample_rate + 500 > u128::MAX,
        len <= usize::MAX,
    ensures
        sample_index(elapsed_millis, sample_rate) >= len,
{
    let scaled = elapsed_millis * sample_rate + 500;
    assert(scaled / 1000 >= 0x1_0000_0000_0000_0000) by (nonlinear_arith)
        requires
            scaled > 0xffff_ffff_ffff_ffff_ffff_ffff_ffff_ffff,
    ;
}

} // verus!
