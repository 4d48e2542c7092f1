//! The concurrency disciplines of the activation protocol.
//!
//! Each filter declares a [`FilterMode`] fixing how the engine may schedule
//! concurrent invocations of its `get_frame`. This module gives each mode its
//! meaning over a schedule of activation spans and proves that the fully
//! serialized schedule the synchronous driver produces conforms to every
//! mode, while leaving the order of output indices completely free.

use vstd::prelude::*;

verus! {

#[derive(Clone, Copy, PartialEq, Eq, Structural, Debug, Hash)]
pub enum FilterMode {
    /// Many threads may be inside `get_frame` at once, for any indices and
    /// reasons.
    Parallel,
    /// Many threads may be inside `get_frame` with reason `Initial` at once,
    /// but at most one with reason `AllFramesReady`.
    ParallelRequests,
    /// At most one thread inside `get_frame` at a time, while calls for
    /// different output indices may interleave in any order.
    Unordered,
    /// At most one thread inside `get_frame`, and one output index in flight
    /// at a time. Kept for compatibility with older filter designs.
    FrameState,
}

#[derive(Clone, Copy, PartialEq, Eq, Structural, Debug)]
pub enum ActivationReason {
    /// First invocation for an output frame request.
    Initial,
    /// Every frame requested for this output index has been resolved.
    AllFramesReady,
    /// An upstream request failed; the filter should propagate the failure.
    Error,
}

/// One stay of a thread inside `get_frame` of a single filter instance:
/// which output index, for which reason, over which half-open time span.
pub struct ActivationSpan {
    pub thread: nat,
    pub frame: nat,
    pub reason: ActivationReason,
    pub start: nat,
    pub end: nat,
}

/// Two spans overlap when neither ends before the other starts.
pub open spec fn spans_overlap(a: ActivationSpan, b: ActivationSpan) -> bool {
    a.start < b.end && b.start < a.end
}

/// A schedule is serialized when no two of its spans overlap.
pub open spec fn serialized(s: Seq<ActivationSpan>) -> bool {
    forall|i: int, j: int|
        0 <= i < s.len() && 0 <= j < s.len() && i != j ==> !spans_overlap(s[i], s[j])
}

/// `Unordered`: no two invocations are in flight at once, for any reasons
/// and any output indices.
pub open spec fn unordered_ok(s: Seq<ActivationSpan>) -> bool {
    forall|i: int, j: int|
        0 <= i < s.len() && 0 <= j < s.len() && i != j ==> !spans_overlap(s[i], s[j])
}

/// `ParallelRequests`: at most one invocation with reason `AllFramesReady`
/// is in flight at once.
pub open spec fn parallel_requests_ok(s: Seq<ActivationSpan>) -> bool {
    forall|i: int, j: int|
        0 <= i < s.len() && 0 <= j < s.len() && i != j && s[i].reason is AllFramesReady
            && s[j].reason is AllFramesReady ==> !spans_overlap(s[i], s[j])
}

/// `FrameState`: no two invocations in flight at once, and a new output
/// index starts only after every span of the previous one has ended.
pub open spec fn frame_state_ok(s: Seq<ActivationSpan>) -> bool {
    &&& unordered_ok(s)
    &&& forall|i: int, j: int|
        0 <= i < s.len() && 0 <= j < s.len() && s[i].frame != s[j].frame ==> !spans_overlap(
            s[i],
            s[j],
        )
}

/// What a schedule must satisfy to respect a filter's declared mode.
pub open spec fn mode_ok(mode: FilterMode, s: Seq<ActivationSpan>) -> bool {
    match mode {
        FilterMode::Parallel => true,
        FilterMode::ParallelRequests => parallel_requests_ok(s),
        FilterMode::Unordered => unordered_ok(s),
        FilterMode::FrameState => frame_state_ok(s),
    }
}

/// Law: a serialized schedule conforms to every concurrency mode. In
/// particular, under `Unordered` a filter is never re-entered by two threads
/// simultaneously, while nothing constrains how activations for distinct
/// output indices interleave: `serialized` says nothing about `frame` order,
/// so any interleaving of indices is accepted. The synchronous driver runs
/// every activation to completion on one thread before starting the next,
/// so its schedules are serialized.
pub proof fn lemma_serialized_conforms_to_every_mode(mode: FilterMode, s: Seq<ActivationSpan>)
    requires
        serialized(s),
    ensures
        mode_ok(mode, s),
        unordered_ok(s),
{
}

} // verus!
