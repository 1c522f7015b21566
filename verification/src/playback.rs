//! The playback callback's computation: resample the current frame content
//! by the current pitch factor and fill an output block of the exact length
//! the device asked for, padding with silence where the resampled signal
//! runs out.

use vstd::prelude::*;
use crate::control::PitchControl;
use crate::frame::SharedFrame;
use crate::resampler::{resample, resampled_at, resampled_len};

verus! {

/// The value at output position `i` of a playback pass: the resampled value
/// while the resampled signal lasts, silence after it.
pub open spec fn rendered_at(s: Seq<i32>, factor_tenths: int, i: int) -> int {
    if i < resampled_len(s.len() as int, factor_tenths) {
        resampled_at(s, factor_tenths, i)
    } else {
        0
    }
}

/// Fill one output block of exactly `out_len` samples from a copy of the
/// frame: the first `min(out_len, resampled length)` positions carry the
/// resampled signal, every remaining position is silence.
pub fn render_block(frame: &Vec<i32>, factor_tenths: u32, out_len: usize) -> (out: Vec<i32>)
    requires
        1 <= factor_tenths,
        10 * frame@.len() <= usize::MAX,
    ensures
        out@.len() == out_len,
        forall|i: int|
            0 <= i < out_len ==> out@[i] as int == rendered_at(frame@, factor_tenths as int, i),
{
    let shifted: Vec<i32> = resample(frame, factor_tenths);
    let mut out: Vec<i32> = Vec::new();
    let mut i: usize = 0;
    while i < out_len
        invariant
            shifted@.len() == resampled_len(frame@.len() as int, factor_tenths as int),
            forall|j: int|
                0 <= j < shifted@.len() ==> shifted@[j] as int == resampled_at(
                    frame@,
                    factor_tenths as int,
                    j,
                ),
            i <= out_len,
            out@.len() == i,
            forall|j: int|
                0 <= j < i ==> out@[j] as int == rendered_at(frame@, factor_tenths as int, j),
        decreases out_len - i,
    {
        let v: i32 = if i < shifted.len() {
            shifted[i]
        } else {
            0
        };
        out.push(v);
        i = i + 1;
    }
    out
}

/// One playback invocation over the shared state: read the frame and the
/// control, resample, and fill the device's block.  The output is rendered
/// with exactly the factor the control holds at this call — so immediately
/// after a preset is selected, the very next pass provably uses that
/// preset's factor, with no staleness window.
pub fn playback_pass(frame: &SharedFrame, control: &PitchControl, out_len: usize) -> (out: Vec<i32>)
    requires
        control.valid(),
        10 * frame@.len() <= usize::MAX,
    ensures
        out@.len() == out_len,
        forall|i: int| 0 <= i < out_len ==> out@[i] as int == rendered_at(frame@, control@, i),
{
    let samples: Vec<i32> = frame.read_frame();
    let factor_tenths: u32 = control.factor_tenths();
    render_block(&samples, factor_tenths, out_len)
}

} // verus!
