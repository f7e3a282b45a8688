use crate::error::KunQuantError;
use vstd::prelude::*;

verus! {

/// Dimensions and time window of one batch computation.
///
/// Buffers are laid out time-major: `[t0_s0, t0_s1, ..., t0_sN, t1_s0, ...]`, so each
/// buffer handed to a batch run holds `num_stocks * total_time` values. The engine
/// computes the time points `cur_time .. cur_time + length`.
#[derive(Debug, Clone, Copy)]
pub struct BatchParams {
    /// Number of stocks (columns) in every buffer.
    pub num_stocks: usize,
    /// Number of time points (rows) in every buffer.
    pub total_time: usize,
    /// First time point to compute (0-based).
    pub cur_time: usize,
    /// Number of consecutive time points to compute.
    pub length: usize,
}

/// The parameters made of these four values, field by field.
pub open spec fn batch_window(num_stocks: usize, total_time: usize, cur_time: usize, length: usize) -> BatchParams {
    BatchParams { num_stocks, total_time, cur_time, length }
}

impl BatchParams {
    /// The computed window lies inside the data: `cur_time + length <= total_time`.
    ///
    /// Results are only meaningful when this holds; it is the caller's duty, and
    /// neither constructor enforces it.
    pub open spec fn window_in_bounds(&self) -> bool {
        self.cur_time + self.length <= self.total_time
    }

    /// These parameters cover every time point of data with `total_time` points for
    /// `num_stocks` stocks.
    pub open spec fn covers_all_of(&self, num_stocks: usize, total_time: usize) -> bool {
        &&& self.num_stocks == num_stocks
        &&& self.total_time == total_time
        &&& self.cur_time == 0
        &&& self.length == total_time
    }

    /// Builds parameters from the four values as given.
    ///
    /// The window is not checked against the data (see `window_in_bounds`), and the
    /// stock count is passed through unchanged: the engine is the one that decides
    /// which counts its SIMD layout accepts.
    pub fn new(num_stocks: usize, total_time: usize, cur_time: usize, length: usize) -> (r: Result<BatchParams, KunQuantError>)
        ensures
            r == Ok::<BatchParams, KunQuantError>(batch_window(num_stocks, total_time, cur_time, length)),
    {
        Ok(BatchParams { num_stocks, total_time, cur_time, length })
    }

    /// Parameters that compute every time point of the data.
    pub fn full_range(num_stocks: usize, total_time: usize) -> (r: Result<BatchParams, KunQuantError>)
        ensures
            r matches Ok(p) && p.covers_all_of(num_stocks, total_time),
    {
        Self::new(num_stocks, total_time, 0, total_time)
    }
}

/// Asking for the full range is the same as asking for the window that starts at
/// time zero and spans every time point, and that window always lies inside the data.
pub proof fn lemma_full_range_matches_new(num_stocks: usize, total_time: usize, p: BatchParams)
    requires
        p.covers_all_of(num_stocks, total_time),
    ensures
        p == batch_window(num_stocks, total_time, 0, total_time),
        p.window_in_bounds(),
{
}

} // verus!
