//! Timing of one request, computed as deltas between four monotonic
//! timestamps: arrival, queued (accepted by the backend), inference started,
//! inference completed. All values are nanoseconds.

use vstd::prelude::*;

verus! {

/// The four monotonic timestamps of one request, in nanoseconds.
#[derive(Clone, Copy, PartialEq, Eq, Structural, Debug)]
pub struct Timestamps {
    pub arrival: u64,
    pub queued: u64,
    pub started: u64,
    pub completed: u64,
}

impl Timestamps {
    /// Monotonic clocks never run backwards across the four readings.
    pub open spec fn wf(self) -> bool {
        self.arrival <= self.queued <= self.started <= self.completed
    }
}

/// The component durations of one request, in nanoseconds.
#[derive(Clone, Copy, PartialEq, Eq, Structural, Debug)]
pub struct TimingBreakdown {
    /// From arrival to completion.
    pub total_ns: u64,
    /// From arrival until the backend accepted the request.
    pub validation_ns: u64,
    /// From acceptance until inference started.
    pub queue_ns: u64,
    /// From inference start to completion.
    pub inference_ns: u64,
    /// Inference time divided by the number of generated tokens.
    pub time_per_token_ns: u64,
}

impl TimingBreakdown {
    /// Compute the breakdown from the four timestamps. Requires at least one
    /// generated token, since the per-token time is an average over them.
    pub fn new(ts: Timestamps, generated_tokens: u32) -> (t: TimingBreakdown)
        requires
            ts.wf(),
            generated_tokens > 0,
        ensures
            t.total_ns == ts.completed - ts.arrival,
            t.validation_ns == ts.queued - ts.arrival,
            t.queue_ns == ts.started - ts.queued,
            t.inference_ns == ts.completed - ts.started,
            t.time_per_token_ns == (ts.completed - ts.started) as u64 / generated_tokens as u64,
            t.total_ns == t.validation_ns + t.queue_ns + t.inference_ns,
    {
        let inference_ns = ts.completed - ts.started;
        TimingBreakdown {
            total_ns: ts.completed - ts.arrival,
            validation_ns: ts.queued - ts.arrival,
            queue_ns: ts.started - ts.queued,
            inference_ns,
            time_per_token_ns: inference_ns / (generated_tokens as u64),
        }
    }
}

/// Law: the component durations account for the whole duration, exactly.
/// Total time equals validation time plus queue time plus inference time,
/// for every monotonic set of timestamps.
pub proof fn lemma_timing_components_sum(ts: Timestamps)
    requires
        ts.wf(),
    ensures
        (ts.completed - ts.arrival) == (ts.queued - ts.arrival) + (ts.started - ts.queued) + (
        ts.completed - ts.started),
{
}

} // verus!
