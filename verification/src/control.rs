//! The control-loop logic: quantizing a sensor reading into a bucket index
//! and scaling a duty fraction into a hardware duty value.

use crate::device::{Action, CommandError, Device};
use vstd::prelude::*;

verus! {

/// The quantization boundaries are in ascending order.
pub open spec fn ascending(bounds: Seq<u16>) -> bool {
    forall|i: int, j: int| 0 <= i < j < bounds.len() ==> bounds[i] < bounds[j]
}

/// The bucket index for a reading: the index of the first boundary the
/// reading falls below. A reading equal to a boundary counts as having
/// exceeded it, and a reading at or above every boundary maps to the last
/// bucket.
pub open spec fn bucket_of(bounds: Seq<u16>, reading: u16) -> int
    decreases bounds.len(),
{
    if bounds.len() <= 1 {
        0
    } else if reading < bounds[0] {
        0
    } else {
        1 + bucket_of(bounds.subrange(1, bounds.len() as int), reading)
    }
}

/// The bucket index always lands inside the boundary table.
pub proof fn lemma_bucket_in_range(bounds: Seq<u16>, reading: u16)
    requires
        0 < bounds.len(),
    ensures
        0 <= bucket_of(bounds, reading) < bounds.len(),
    decreases bounds.len(),
{
    if bounds.len() > 1 && !(reading < bounds[0]) {
        lemma_bucket_in_range(bounds.subrange(1, bounds.len() as int), reading);
    }
}

/// Law: for ascending boundaries, the bucket index is monotonically
/// non-decreasing in the reading.
pub proof fn lemma_bucket_monotone(bounds: Seq<u16>, v1: u16, v2: u16)
    requires
        0 < bounds.len(),
        ascending(bounds),
        v1 <= v2,
    ensures
        bucket_of(bounds, v1) <= bucket_of(bounds, v2),
    decreases bounds.len(),
{
    let tail = bounds.subrange(1, bounds.len() as int);
    if bounds.len() > 1 {
        if v1 < bounds[0] {
            lemma_bucket_in_range(bounds, v2);
        } else {
            assert(ascending(tail)) by {
                assert(forall|i: int, j: int|
                    0 <= i < j < tail.len() ==> tail[i] == bounds[i + 1] && tail[j] == bounds[j
                        + 1]);
            }
            lemma_bucket_monotone(tail, v1, v2);
        }
    }
}

/// The bucket index equals `k` when the reading is at or above every
/// boundary before `k` and below boundary `k`.
proof fn lemma_bucket_at(bounds: Seq<u16>, reading: u16, k: int)
    requires
        0 <= k < bounds.len(),
        forall|j: int| 0 <= j < k ==> reading >= bounds[j],
        reading < bounds[k],
    ensures
        bucket_of(bounds, reading) == k,
    decreases bounds.len(),
{
    if k > 0 {
        let tail = bounds.subrange(1, bounds.len() as int);
        assert(forall|j: int| 0 <= j < k - 1 ==> tail[j] == bounds[j + 1]);
        lemma_bucket_at(tail, reading, k - 1);
    }
}

/// The bucket index is the last one when the reading is at or above every
/// boundary.
proof fn lemma_bucket_saturates(bounds: Seq<u16>, reading: u16)
    requires
        0 < bounds.len(),
        forall|j: int| 0 <= j < bounds.len() ==> reading >= bounds[j],
    ensures
        bucket_of(bounds, reading) == bounds.len() - 1,
    decreases bounds.len(),
{
    if bounds.len() > 1 {
        let tail = bounds.subrange(1, bounds.len() as int);
        assert(forall|j: int| 0 <= j < tail.len() ==> tail[j] == bounds[j + 1]);
        lemma_bucket_saturates(tail, reading);
    }
}

/// Quantize a sensor reading against ascending threshold boundaries: the
/// index of the first boundary the reading falls below, or the last bucket
/// when the reading is at or above them all.
pub fn quantize(bounds: &Vec<u16>, reading: u16) -> (i: usize)
    requires
        0 < bounds@.len(),
        ascending(bounds@),
    ensures
        i == bucket_of(bounds@, reading),
        i < bounds@.len(),
{
    let n = bounds.len();
    let mut i: usize = 0;
    while i < n
        invariant
            n == bounds@.len(),
            i <= n,
            forall|j: int| 0 <= j < i ==> reading >= bounds@[j],
        decreases n - i,
    {
        if reading < bounds[i] {
            proof {
                lemma_bucket_at(bounds@, reading, i as int);
            }
            return i;
        }
        i = i + 1;
    }
    proof {
        lemma_bucket_saturates(bounds@, reading);
    }
    n - 1
}

/// Scale a duty fraction (a percentage) to hardware units: the result is
/// `fraction * max_duty / 100`, rounded down, and never exceeds `max_duty`.
pub fn scale_duty(fraction: u32, max_duty: u32) -> (duty: u32)
    requires
        fraction <= 100,
    ensures
        duty == fraction * max_duty / 100,
        duty <= max_duty,
{
    let f: u64 = fraction as u64;
    let m: u64 = max_duty as u64;
    proof {
        assert(f * m <= 100 * 0xffff_ffffu64 && f * m / 100 <= m) by (nonlinear_arith)
            requires
                f <= 100,
                m <= 0xffff_ffffu64,
        ;
    }
    let wide: u64 = f * m / 100;
    wide as u32
}

/// One control-loop tick, after the sensor has been read: quantize the
/// reading, ask the device to adopt that level, and return the scaled
/// hardware duty value for the caller to write to the PWM driver.
///
/// A device that does not accept `SetLevel` is left untouched and the duty
/// value reflects its unchanged state.
pub fn tick(device: &mut Device, bounds: &Vec<u16>, reading: u16, max_duty: u32) -> (duty: u32)
    requires
        old(device).wf(),
        0 < bounds@.len(),
        ascending(bounds@),
    ensures
        final(device).wf(),
        old(device).available_actions@.contains(Action::SetLevel) ==> *final(device) == old(
            device,
        ).spec_apply(Action::SetLevel, Some(bucket_of(bounds@, reading) as usize)),
        !old(device).available_actions@.contains(Action::SetLevel) ==> *final(device) == *old(
            device,
        ),
        duty == final(device).duty_cycles@[final(device).target as int] * max_duty / 100,
        duty <= max_duty,
{
    let level = quantize(bounds, reading);
    let _ = device.take_action(Action::SetLevel, Some(level));
    let fraction = device.get_duty_cycle();
    scale_duty(fraction, max_duty)
}

/// One tick under the recoverable-fault policy: a failed sensor read
/// (`None`) leaves the device untouched and holds the last known-good duty
/// value; a successful read behaves as [`tick`].
pub fn tick_or_hold(
    device: &mut Device,
    bounds: &Vec<u16>,
    reading: Option<u16>,
    max_duty: u32,
    last_duty: u32,
) -> (duty: u32)
    requires
        old(device).wf(),
        0 < bounds@.len(),
        ascending(bounds@),
    ensures
        final(device).wf(),
        reading is None ==> duty == last_duty && *final(device) == *old(device),
        reading matches Some(v) ==> {
            &&& old(device).available_actions@.contains(Action::SetLevel) ==> *final(device) == old(
                device,
            ).spec_apply(Action::SetLevel, Some(bucket_of(bounds@, v) as usize))
            &&& !old(device).available_actions@.contains(Action::SetLevel) ==> *final(device)
                == *old(device)
            &&& duty == final(device).duty_cycles@[final(device).target as int] * max_duty / 100
            &&& duty <= max_duty
        },
{
    match reading {
        Some(v) => tick(device, bounds, v, max_duty),
        None => last_duty,
    }
}

} // verus!
