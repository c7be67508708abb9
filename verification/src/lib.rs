//! An observable value: a container that holds a current value and notifies
//! any number of live subscribers whenever the value changes.
//!
//! An [`Observable`] owns the value and the single producer handle of a
//! bounded broadcast channel with one slot of history; each [`Subscriber`]
//! owns an independently progressing consumer handle. A subscriber that falls
//! behind is told so by the channel and silently skips ahead to the newest
//! retained value.

mod observable;
mod protocol;
mod raw;

pub use observable::{resolve_event, Observable, Pull, Step, Subscriber};
pub use protocol::{channel_pull, lemma_closed_ends_sequence, lemma_deliveries_are_ordered_subsequence, lemma_deliveries_track_publishes, lemma_trace_history_grows, lemma_lagged_pull_skips_to_latest, lemma_late_subscriber_misses_prior, lemma_no_silent_skip, lemma_prompt_run_delivers_exactly, lemma_subscriber_deliveries, prompt_run, trace_deliveries, trace_history, trace_positions, PullModel, TraceEvent};
pub use raw::RawEvent;
