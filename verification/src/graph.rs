use vstd::prelude::*;
use crate::text::{decimal, push_decimal, string_from_chars};

verus! {

/// The spacing between axis ticks on a score graph whose axis runs from
/// zero to `max`.
pub open spec fn tick_step_spec(max: int) -> int {
    if max >= 4000 {
        1000
    } else if max >= 1000 {
        250
    } else if max >= 400 {
        100
    } else if max >= 100 {
        25
    } else {
        10
    }
}

/// The label written at the far end of an axis running up to `max`:
/// whole thousands are abbreviated with a `k` suffix.
pub open spec fn tick_label_spec(max: int) -> Seq<char> {
    if max >= 1000 && max % 1000 == 0 {
        decimal(max / 1000) + seq!['k']
    } else {
        decimal(max)
    }
}

/// The spacing between the ticks drawn along a graph axis of length `max`.
pub fn tick_step_for_maximum(max: i32) -> (step: i32)
    ensures
        step == tick_step_spec(max as int),
        step > 0,
{
    if max >= 4000 {
        1000
    } else if max >= 1000 {
        250
    } else if max >= 400 {
        100
    } else if max >= 100 {
        25
    } else {
        10
    }
}

/// Formats the label for the maximum value of a graph axis.
pub fn format_tick_maximum(max: i32) -> (label: String)
    ensures
        label@ == tick_label_spec(max as int),
{
    let mut chars: Vec<char> = Vec::new();
    if max >= 1000 && max % 1000 == 0 {
        push_decimal((max / 1000) as i64, &mut chars);
        chars.push('k');
    } else {
        push_decimal(max as i64, &mut chars);
    }
    string_from_chars(&chars)
}


/// The values at which ticks are drawn along an axis running from zero to
/// `max`: every multiple of the tick step from zero up to `max`.
pub fn axis_ticks(max: i32) -> (ticks: Vec<i32>)
    requires
        max <= i32::MAX - 1000,
    ensures
        max < 0 ==> ticks@.len() == 0,
        max >= 0 ==> ticks@.len() == (max as int) / tick_step_spec(max as int) + 1,
        forall|i: int| 0 <= i < ticks@.len() ==> #[trigger] ticks@[i] == i * tick_step_spec(max as int),
{
    let step = tick_step_for_maximum(max);
    let mut ticks: Vec<i32> = Vec::new();
    let mut tick: i32 = 0;
    while tick <= max
        invariant
            max <= i32::MAX - 1000,
            step == tick_step_spec(max as int),
            0 < step <= 1000,
            tick == ticks@.len() * step,
            tick >= 0,
            max >= 0 ==> tick <= max + step,
            max < 0 ==> ticks@.len() == 0,
            forall|i: int| 0 <= i < ticks@.len() ==> #[trigger] ticks@[i] == i * step,
            max >= 0 ==> ticks@.len() <= (max as int) / (step as int) + 1,
            max >= 0 && tick > max ==> ticks@.len() == (max as int) / (step as int) + 1,
        decreases max + step - tick,
    {
        ticks.push(tick);
        proof {
            let n = ticks@.len() as int;
            assert(n * step == tick + step) by (nonlinear_arith)
                requires
                    n == (ticks@.len() as int),
                    tick == (n - 1) * step,
            ;
            assert(n - 1 <= (max as int) / (step as int)) by (nonlinear_arith)
                requires
                    (n - 1) * step <= max,
                    step > 0,
                    max >= 0,
            ;
            if tick + step > max {
                assert(n - 1 >= (max as int) / (step as int)) by (nonlinear_arith)
                    requires
                        n * step > max,
                        step > 0,
                        max >= 0,
            ;
            }
        }
        tick = tick + step;
    }
    ticks
}

} // verus!
