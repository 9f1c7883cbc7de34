//! Sampling a response curve for a plotting surface.
//!
//! The shell supplies a frequency window and a sample count; the curve is
//! the response magnitude at evenly spaced frequencies across the window.
//! `State` keeps the last sampled curve between redraws.

use vstd::prelude::*;

use crate::evaluate::{bass_fn_point, spec_bass_fn_point, BassFnData};
use crate::scalar::{fx_add, fx_div, fx_mul, fx_sub, Scalar, SCALE};

verus! {

/// The largest sample count a curve may ask for.
pub const MAX_SAMPLES: usize = 1_000_000;

/// The frequency of sample `i` of `count`: `min + i * (max - min) / count`.
pub open spec fn spec_sample_x(min: Option<int>, max: Option<int>, count: int, i: int) -> Option<
    int,
> {
    fx_add(min, fx_div(fx_mul(Some(i * SCALE), fx_sub(max, min)), Some(count * SCALE)))
}

/// Sample the response curve of `data` at `count + 1` evenly spaced
/// frequencies from `min_freq` to `max_freq`; each sample pairs the
/// frequency with the magnitude there.
pub fn sample_curve(data: &BassFnData, min_freq: Scalar, max_freq: Scalar, count: usize) -> (r:
    Vec<(Scalar, Scalar)>)
    requires
        1 <= count <= MAX_SAMPLES,
    ensures
        r@.len() == count + 1,
        forall|i: int|
            0 <= i <= count ==> (#[trigger] r@[i]).0@ == spec_sample_x(
                min_freq@,
                max_freq@,
                count as int,
                i,
            ),
        forall|i: int|
            0 <= i <= count ==> (#[trigger] r@[i]).1@ == spec_bass_fn_point(
                data@,
                spec_sample_x(min_freq@, max_freq@, count as int, i),
            ),
{
    let span = max_freq.sub(min_freq);
    let den = Scalar::from_int(count as i64);
    let mut r: Vec<(Scalar, Scalar)> = Vec::new();
    let mut i: usize = 0;
    while i <= count
        invariant
            1 <= count <= MAX_SAMPLES,
            i <= count + 1,
            span@ == fx_sub(max_freq@, min_freq@),
            den@ == Some(count * SCALE),
            r@.len() == i,
            forall|j: int|
                0 <= j < i ==> (#[trigger] r@[j]).0@ == spec_sample_x(
                    min_freq@,
                    max_freq@,
                    count as int,
                    j,
                ),
            forall|j: int|
                0 <= j < i ==> (#[trigger] r@[j]).1@ == spec_bass_fn_point(
                    data@,
                    spec_sample_x(min_freq@, max_freq@, count as int, j),
                ),
        decreases count - i + 1,
    {
        let x = min_freq.add(Scalar::from_int(i as i64).mul(span).div(den));
        let y = bass_fn_point(data, x);
        r.push((x, y));
        i = i + 1;
    }
    r
}

/// State a plotting widget keeps between redraws: the last sampled curve.
pub struct State {
    pub points: Vec<(Scalar, Scalar)>,
}

impl State {
    /// A fresh widget state with no curve yet.
    pub fn new() -> (r: State)
        ensures
            r.points@.len() == 0,
    {
        State { points: Vec::new() }
    }

    /// Resample the curve for the current parameter-derived coefficients.
    pub fn update(&mut self, data: &BassFnData, min_freq: Scalar, max_freq: Scalar, count: usize)
        requires
            1 <= count <= MAX_SAMPLES,
        ensures
            final(self).points@.len() == count + 1,
            forall|i: int|
                0 <= i <= count ==> (#[trigger] final(self).points@[i]).1@ == spec_bass_fn_point(
                    data@,
                    spec_sample_x(min_freq@, max_freq@, count as int, i),
                ),
    {
        self.points = sample_curve(data, min_freq, max_freq, count);
    }
}

} // verus!
