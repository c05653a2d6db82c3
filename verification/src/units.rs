//! Linear rescaling and clamping of integer quantities.

use vstd::prelude::*;

verus! {

/// Mathematical meaning of `scale`: a linear map from the input range onto
/// the output range, with the division truncated.
pub open spec fn spec_scale(
    input: int,
    input_start: int,
    input_end: int,
    output_start: int,
    output_end: int,
) -> int
    recommends
        input_end != input_start,
{
    output_start + ((input - input_start) * (output_end - output_start)) / (input_end - input_start)
}

/// Mathematical meaning of `saturate_range`.
pub open spec fn spec_saturate(input: int, min: int, max: int) -> int {
    if input < min {
        min
    } else if input > max {
        max
    } else {
        input
    }
}

/// Map `input` from `[input_start, input_end]` onto `[output_start, output_end]`
/// linearly.  Inputs are restricted to non-negative offsets and increasing
/// ranges so that the truncated machine division agrees with the mathematical
/// (Euclidean) one.
pub fn scale(input: i64, input_start: i64, input_end: i64, output_start: i64, output_end: i64) -> (r: i64)
    requires
        input_start < input_end,
        output_start <= output_end,
        input_start <= input,
        input - input_start <= i64::MAX as int,
        input_end - input_start <= i64::MAX as int,
        output_end - output_start <= i64::MAX as int,
        (input - input_start) * (output_end - output_start) <= i64::MAX as int,
        output_start + (input - input_start) * (output_end - output_start) / (input_end - input_start)
            <= i64::MAX as int,
    ensures
        r == spec_scale(input as int, input_start as int, input_end as int, output_start as int,
            output_end as int),
{
    let offset = input - input_start;
    let rise = output_end - output_start;
    proof {
        assert(offset * rise >= 0) by (nonlinear_arith)
            requires offset >= 0 && rise >= 0;
    }
    let num = offset * rise;
    let den = input_end - input_start;
    assert(num / den >= 0);
    assert(num as int / den as int == num / den);
    output_start + num / den
}

/// Clamp `input` into `[min, max]`.
pub fn saturate_range(input: i64, min: i64, max: i64) -> (r: i64)
    requires
        min <= max,
    ensures
        r == spec_saturate(input as int, min as int, max as int),
        min <= r <= max,
{
    let mut output = input;

    if output < min {
        output = min;
    }

    if output > max {
        output = max;
    }

    output
}

} // verus!
