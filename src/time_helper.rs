use vstd::prelude::*;

verus! {

/// A time of day as `(hour, minute)`.
pub type Time = (i16, i16);

/// The time written as the number `hhmm`, the form in which two times are compared.
pub open spec fn clock_stamp(t: Time) -> int {
    t.0 as int * 100 + t.1 as int
}

/// The number of minutes since midnight of hour zero.
pub open spec fn total_minutes(t: Time) -> int {
    t.0 as int * 60 + t.1 as int
}

/// Whether the start or the end of `a` falls inside `b`, or `b` lies inside `a`.
pub open spec fn overlaps_from(a_from: Time, a_to: Time, b_from: Time, b_to: Time) -> bool {
    let (a_start, a_end) = (clock_stamp(a_from), clock_stamp(a_to));
    let (b_start, b_end) = (clock_stamp(b_from), clock_stamp(b_to));
    (b_start <= a_start && a_start <= b_end) || (b_start <= a_end && a_end <= b_end) || (
    a_start <= b_start && b_end <= a_end)
}

/// Calculates the time after a given offset in minutes: the minutes of the result lie
/// in `0..60`, and the hours absorb whatever is carried or borrowed.
pub fn calculate_time_with_offset(time: Time, offset: i16) -> (r: Time)
    requires
        i16::MIN as int * 60 <= total_minutes(time) + offset < (i16::MAX as int + 1) * 60,
    ensures
        total_minutes(r) == total_minutes(time) + offset,
        0 <= r.1 < 60,
{
    let (hr0, min0) = time;
    let start_hr: i32 = hr0 as i32;
    let start_min: i32 = min0 as i32 + offset as i32;
    let mut hr: i32 = start_hr;
    let mut min: i32 = start_min;
    if min >= 60 {
        while min >= 60
            invariant
                hr as int * 60 + min as int == start_hr as int * 60 + start_min as int,
                start_hr <= hr,
                0 <= min <= start_min,
                start_min < 65536,
                -32768 <= start_hr <= 32767,
            decreases min,
        {
            hr = hr + 1;
            min = min - 60;
        }
    } else if min < 0 {
        while min < 0
            invariant
                hr as int * 60 + min as int == start_hr as int * 60 + start_min as int,
                hr <= start_hr,
                start_min <= min < 60,
                start_min >= -65536,
                -32768 <= start_hr <= 32767,
            decreases 60 - min,
        {
            hr = hr - 1;
            min = min + 60;
        }
    }
    (hr as i16, min as i16)
}

/// Checks if there is a time conflict between two time ranges, in either direction.
pub fn time_conflicts(a_from: Time, a_to: Time, b_from: Time, b_to: Time) -> (r: bool)
    ensures
        r == (overlaps_from(a_from, a_to, b_from, b_to) || overlaps_from(
            b_from,
            b_to,
            a_from,
            a_to,
        )),
{
    _time_conflicts(a_from, a_to, b_from, b_to) || _time_conflicts(b_from, b_to, a_from, a_to)
}

fn stamp_of(t: Time) -> (r: i32)
    ensures
        r as int == clock_stamp(t),
{
    t.0 as i32 * 100 + t.1 as i32
}

fn _time_conflicts(a_from: Time, a_to: Time, b_from: Time, b_to: Time) -> (r: bool)
    ensures
        r == overlaps_from(a_from, a_to, b_from, b_to),
{
    let a_start = stamp_of(a_from);
    let a_end = stamp_of(a_to);
    let b_start = stamp_of(b_from);
    let b_end = stamp_of(b_to);
    if b_start <= a_start && a_start <= b_end {
        return true;
    }
    if b_start <= a_end && a_end <= b_end {
        return true;
    }
    if a_start <= b_start && b_end <= a_end {
        return true;
    }
    false
}

} // verus!
