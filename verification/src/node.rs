//! Nodes, filters, frame contexts, and the activation dispatcher.
//!
//! A node is a live handle to one registered filter instance in the graph. A
//! consumer pulls frame `n` from a node with [`NodeRef::get_frame`], which
//! drives the activation protocol to completion: the filter is invoked with
//! reason `Initial`, may request upstream frames through its
//! [`FrameContext`], and is re-invoked with `AllFramesReady` once every
//! requested frame is resolved, or with `Error` if an upstream request
//! failed.

use vstd::prelude::*;
use crate::engine::{deps_ok, name_has_nul, Core, CoreRef};
use crate::format::{AudioFormat, ColorFamily, SampleType, VideoFormat};
use crate::frame::{Frame, FrameDesc, MediaType};
use crate::protocol::{ActivationReason, FilterMode};

verus! {

/// Stream description of a video node, fixed at registration.
#[derive(Clone, Copy, PartialEq, Eq, Structural, Debug)]
pub struct VideoInfo {
    pub format: VideoFormat,
    pub fps_num: i64,
    pub fps_den: i64,
    pub width: i32,
    pub height: i32,
    pub num_frames: i32,
}

/// Stream description of an audio node, fixed at registration.
#[derive(Clone, Copy, PartialEq, Eq, Structural, Debug)]
pub struct AudioInfo {
    pub format: AudioFormat,
    pub sample_rate: i32,
    pub num_samples: i64,
    pub num_frames: i32,
}

/// Tagged stream description: what kind of node this is and its metadata.
/// The single safe accessor [`NodeRef::get_info`] returns this union, so the
/// media type is always checked before the metadata is interpreted.
#[derive(Clone, Copy, PartialEq, Eq, Structural, Debug)]
pub enum Info {
    Video(VideoInfo),
    Audio(AudioInfo),
}

pub open spec fn info_media_type(info: Info) -> MediaType {
    match info {
        Info::Video(_) => MediaType::Video,
        Info::Audio(_) => MediaType::Audio,
    }
}

pub open spec fn info_num_frames(info: Info) -> i32 {
    match info {
        Info::Video(vi) => vi.num_frames,
        Info::Audio(ai) => ai.num_frames,
    }
}

/// A registered stream description must promise at least one frame.
pub open spec fn info_valid(info: Info) -> bool {
    info_num_frames(info) >= 1
}

/// Whether a produced frame matches the stream description a node was
/// registered with. A video node with the all-zero format has variable
/// format; one with width zero has variable dimensions.
pub open spec fn desc_matches_info(desc: FrameDesc, info: Info) -> bool {
    match info {
        Info::Video(vi) => match desc {
            FrameDesc::Video { format, width, height } => {
                vi.format == crate::format::zero_video_format() || (format == vi.format && (
                vi.width == 0 || (width == vi.width && height == vi.height)))
            },
            FrameDesc::Audio { .. } => false,
        },
        Info::Audio(ai) => match desc {
            FrameDesc::Audio { format, .. } => format == ai.format,
            FrameDesc::Video { .. } => false,
        },
    }
}

/// How a filter will request frames from one upstream node: a caching and
/// prefetch hint for the engine, not an ordering guarantee on the filter.
#[derive(Clone, Copy, PartialEq, Eq, Structural, Debug)]
pub enum RequestPattern {
    /// No assumption about the request order.
    General,
    /// Requested strictly in increasing output-frame order, each source
    /// frame used for exactly one output frame.
    NoFrameReuse,
    /// Requested strictly in increasing output-frame order.
    StrictSpatial,
}

/// Declares one upstream node a filter consumes and its request pattern.
///
/// The declaration is a non-owning reference: it holds the upstream node's
/// position, not a counted handle. Whoever keeps the composed graph alive
/// keeps a handle to each node; a request to a dependency that was freed
/// anyway fails the activation instead of touching a dead slot.
#[derive(Clone, Copy, PartialEq, Eq, Structural, Debug)]
pub struct FilterDependency {
    pub source: usize,
    pub request_pattern: RequestPattern,
}

impl FilterDependency {
    pub fn new(source: &NodeRef, request_pattern: RequestPattern) -> (r: FilterDependency)
        ensures
            r.source == source.spec_index(),
            r.request_pattern == request_pattern,
    {
        FilterDependency { source: source.index(), request_pattern }
    }
}

/// Caching policy for one node's output frames.
#[derive(Clone, Copy, PartialEq, Eq, Structural, Debug)]
pub enum CacheMode {
    /// The engine decides from observed request patterns and consumer count.
    Auto,
    /// Never cache this node's output.
    ForceDisable,
    /// Always cache this node's output.
    ForceEnable,
}

/// The per-activation channel between the engine and a filter invocation.
///
/// It is valid only for the one invocation that received it: the filter uses
/// it to request upstream frames, to fetch the frames resolved for this
/// output index, and to record a fatal-for-this-frame error.
pub struct FrameContext {
    requested: Vec<(usize, i32)>,
    resolved: Vec<(usize, i32, Frame)>,
    error: Option<String>,
}

impl FrameContext {
    pub closed spec fn spec_requested(self) -> Seq<(usize, i32)> {
        self.requested@
    }

    pub closed spec fn spec_resolved(self) -> Seq<(usize, i32, Frame)> {
        self.resolved@
    }

    pub closed spec fn spec_error(self) -> Option<Seq<char>> {
        match self.error {
            Some(s) => Some(s@),
            None => None,
        }
    }

    pub(crate) fn new() -> (r: FrameContext)
        ensures
            r.spec_requested() == Seq::<(usize, i32)>::empty(),
            r.spec_resolved() == Seq::<(usize, i32, Frame)>::empty(),
            r.spec_error() is None,
    {
        FrameContext { requested: Vec::new(), resolved: Vec::new(), error: None }
    }

    /// Asks the engine to resolve frame `n` of `node` before this filter is
    /// re-invoked with `AllFramesReady`.
    pub fn request_frame_filter(&mut self, n: i32, node: &NodeRef)
        ensures
            final(self).spec_requested() == old(self).spec_requested().push(
                (node.spec_index(), n),
            ),
            final(self).spec_resolved() == old(self).spec_resolved(),
            final(self).spec_error() == old(self).spec_error(),
    {
        self.requested.push((node.index(), n));
    }

    /// Takes the resolved frame `n` of `node` out of this context, if the
    /// engine resolved one for this invocation.
    pub fn get_frame_filter(&mut self, n: i32, node: &NodeRef) -> (r: Option<Frame>)
        ensures
            r is Some <==> exists|i: int|
                0 <= i < old(self).spec_resolved().len()
                    && old(self).spec_resolved()[i].0 == node.spec_index()
                    && old(self).spec_resolved()[i].1 == n,
            r matches Some(f) ==> exists|i: int|
                0 <= i < old(self).spec_resolved().len() && old(self).spec_resolved()[i] == (
                node.spec_index(),
                n,
                f,
            ) && final(self).spec_resolved() == old(self).spec_resolved().remove(i),
            r is None ==> *final(self) == *old(self),
            final(self).spec_requested() == old(self).spec_requested(),
            final(self).spec_error() == old(self).spec_error(),
    {
        let idx = node.index();
        let mut i: usize = 0;
        while i < self.resolved.len()
            invariant
                i <= self.resolved.len(),
                forall|j: int|
                    0 <= j < i ==> !(#[trigger] self.resolved@[j].0 == idx && self.resolved@[j].1
                        == n),
                idx == node.spec_index(),
                *self == *old(self),
            decreases self.resolved.len() - i,
        {
            if self.resolved[i].0 == idx && self.resolved[i].1 == n {
                proof {
                    assert(old(self).spec_resolved()[i as int].0 == node.spec_index()
                        && old(self).spec_resolved()[i as int].1 == n);
                }
                let entry = self.resolved.remove(i);
                proof {
                    assert(old(self).spec_resolved()[i as int] == (node.spec_index(), n, entry.2));
                    assert(self.spec_resolved() == old(self).spec_resolved().remove(i as int));
                }
                return Some(entry.2);
            }
            i = i + 1;
        }
        None
    }

    /// Records a fatal error for the output frame this invocation serves.
    pub fn set_filter_error(&mut self, msg: String)
        ensures
            final(self).spec_error() == Some(msg@),
            final(self).spec_requested() == old(self).spec_requested(),
            final(self).spec_resolved() == old(self).spec_resolved(),
    {
        self.error = Some(msg);
    }

    pub(crate) fn take_requests(&mut self) -> (r: Vec<(usize, i32)>)
        ensures
            r@ == old(self).spec_requested(),
            final(self).spec_requested() == Seq::<(usize, i32)>::empty(),
            final(self).spec_resolved() == old(self).spec_resolved(),
            final(self).spec_error() == old(self).spec_error(),
    {
        let mut r: Vec<(usize, i32)> = Vec::new();
        std::mem::swap(&mut r, &mut self.requested);
        r
    }

    pub(crate) fn push_resolved(&mut self, node: usize, n: i32, frame: Frame)
        ensures
            final(self).spec_resolved() == old(self).spec_resolved().push((node, n, frame)),
            final(self).spec_requested() == old(self).spec_requested(),
            final(self).spec_error() == old(self).spec_error(),
    {
        self.resolved.push((node, n, frame));
    }

    pub(crate) fn take_resolved(&mut self) -> (r: Vec<(usize, i32, Frame)>)
        ensures
            r@ == old(self).spec_resolved(),
            final(self).spec_resolved() == Seq::<(usize, i32, Frame)>::empty(),
            final(self).spec_requested() == old(self).spec_requested(),
            final(self).spec_error() == old(self).spec_error(),
    {
        let mut r: Vec<(usize, i32, Frame)> = Vec::new();
        std::mem::swap(&mut r, &mut self.resolved);
        r
    }

    pub(crate) fn take_error(&mut self) -> (r: Option<String>)
        ensures
            final(self).spec_error() is None,
            r is Some <==> old(self).spec_error() is Some,
            r matches Some(m) ==> old(self).spec_error() == Some(m@),
            final(self).spec_requested() == old(self).spec_requested(),
            final(self).spec_resolved() == old(self).spec_resolved(),
    {
        self.error.take()
    }
}

/// The user-supplied unit of work: produces frames on demand.
///
/// `get_frame` is invoked by the engine according to the activation
/// protocol; the declared [`FilterMode`] fixes how invocations may be
/// scheduled concurrently. `frame_data` is the filter-private scratch slot
/// that persists across the `Initial` to `AllFramesReady` re-entry for one
/// output-frame request and for no longer.
pub trait Filter: Sized {
    /// Scratch state kept between re-entries of one output-frame request.
    type FrameData;

    /// The concurrency discipline this filter declares: a fixed property of
    /// the filter type, not a runtime choice.
    spec fn declared_mode() -> FilterMode;

    /// The declared concurrency discipline.
    fn mode(&self) -> (r: FilterMode)
        ensures
            r == Self::declared_mode(),
    ;

    /// Produce frame `n`, request more upstream frames, or fail.
    fn get_frame(
        &self,
        n: i32,
        activation_reason: ActivationReason,
        frame_data: &mut Option<Self::FrameData>,
        frame_ctx: &mut FrameContext,
        core: &mut CoreRef,
    ) -> Result<Option<Frame>, String>;

    /// Teardown hook, invoked exactly once, after the engine guarantees no
    /// further `get_frame` call for this instance.
    fn free(&mut self, core: &mut CoreRef);
}

/// One registered filter instance and its engine-side bookkeeping.
pub struct NodeSlot<F> {
    pub name: String,
    pub info: Info,
    pub mode: FilterMode,
    pub deps: Vec<FilterDependency>,
    pub filter: F,
    pub rc: u64,
    pub freed: bool,
    pub cache_mode: CacheMode,
    pub cache_fixed_size: i32,
    pub cache_max_size: i32,
    pub cache_max_history_size: i32,
    pub linear: bool,
}

impl<F> NodeSlot<F> {
    /// Well-formedness of the slot at position `i` of the graph: the
    /// reference count is zero exactly for torn-down slots, the stream
    /// description is valid, and every dependency points strictly upstream.
    pub open spec fn slot_wf(self, i: int) -> bool {
        &&& (self.rc == 0 <==> self.freed)
        &&& info_valid(self.info)
        &&& forall|d: int|
            0 <= d < self.deps@.len() ==> 0 <= #[trigger] self.deps@[d].source < i
    }
}

/// Well-formedness of the whole node graph: every slot is well-formed at its
/// own position. Dependencies pointing strictly upstream is what makes every
/// pull through the graph terminate.
pub open spec fn nodes_wf<F>(nodes: Seq<NodeSlot<F>>) -> bool {
    forall|i: int| 0 <= i < nodes.len() ==> (#[trigger] nodes[i]).slot_wf(i)
}

/// A reference-counted handle to one registered filter instance.
///
/// Handles are duplicated with [`Core::clone_node`] and released with
/// [`Core::free_node`]; the instance is torn down exactly once, when its
/// last handle is released.
#[derive(Debug)]
pub struct NodeRef {
    index: usize,
}

impl NodeRef {
    pub closed spec fn spec_index(self) -> usize {
        self.index
    }

    pub(crate) fn make(index: usize) -> (r: NodeRef)
        ensures
            r.spec_index() == index,
    {
        NodeRef { index }
    }

    /// The position of this node in the graph, fixed at registration.
    pub fn index(&self) -> (r: usize)
        ensures
            r == self.spec_index(),
    {
        self.index
    }
}

/// The most re-entries of one output-frame request the synchronous driver
/// grants a filter before it reports the activation as stuck.
pub const ACTIVATION_REENTRY_BUDGET: u32 = 64;

/// Runtime check of [`desc_matches_info`].
fn matches_info(desc: FrameDesc, info: &Info) -> (b: bool)
    ensures
        b == desc_matches_info(desc, *info),
{
    match info {
        Info::Video(vi) => match desc {
            FrameDesc::Video { format, width, height } => {
                let zero = VideoFormat {
                    color_family: ColorFamily::Undefined,
                    sample_type: SampleType::Integer,
                    bits_per_sample: 0,
                    bytes_per_sample: 0,
                    sub_sampling_w: 0,
                    sub_sampling_h: 0,
                    num_planes: 0,
                };
                vi.format == zero || (format == vi.format && (vi.width == 0 || (width == vi.width
                    && height == vi.height)))
            },
            FrameDesc::Audio { .. } => false,
        },
        Info::Audio(ai) => match desc {
            FrameDesc::Audio { format, .. } => format == ai.format,
            FrameDesc::Video { .. } => false,
        },
    }
}

/// What the driver does next after one filter invocation, decided by
/// [`activation_step`].
pub enum StepDecision {
    /// The invocation produced this frame and recorded no error: the
    /// request is done and ownership of the frame passes to the engine.
    Produce(Frame),
    /// The request fails with this message.
    Fail(String),
    /// A frame came back although an error was recorded on the context:
    /// the frame is released and the request fails with the message.
    ReleaseAndFail(Frame, String),
    /// A deferral without requests under `Initial`: the filter asks to be
    /// retried later under the engine's own scheduling.
    Retry,
    /// Requests are pending: resolve every one of them, then re-enter the
    /// filter with `AllFramesReady`.
    Advance,
}

/// The per-invocation step of the activation protocol: how one filter
/// outcome, together with the error recorded on the frame context and the
/// presence of pending requests, decides the fate of the output-frame
/// request. An error outcome fails the request with exactly that message; a
/// recorded context error fails it likewise (releasing a frame that came
/// back beside it); a produced frame with no recorded error finishes the
/// request with exactly that frame; a deferral advances to `AllFramesReady`
/// when requests are pending, is retried when deferred under `Initial`, and
/// is a protocol violation when a re-entry ends with no result.
pub fn activation_step(
    outcome: Result<Option<Frame>, String>,
    recorded: Option<String>,
    has_requests: bool,
    reason: ActivationReason,
) -> (d: StepDecision)
    ensures
        outcome matches Err(e) ==> d == StepDecision::Fail(e),
        outcome matches Ok(Some(f)) ==> (recorded is None ==> d == StepDecision::Produce(f)),
        outcome matches Ok(Some(f)) ==> (recorded matches Some(m) ==> d
            == StepDecision::ReleaseAndFail(f, m)),
        recorded matches Some(m) ==> (outcome == Ok::<Option<Frame>, String>(None) ==> d
            == StepDecision::Fail(m)),
        (outcome == Ok::<Option<Frame>, String>(None) && recorded is None && has_requests) ==> d
            is Advance,
        (outcome == Ok::<Option<Frame>, String>(None) && recorded is None && !has_requests
            && reason is Initial) ==> d is Retry,
        (outcome == Ok::<Option<Frame>, String>(None) && recorded is None && !has_requests && !(
        reason is Initial)) ==> (d matches StepDecision::Fail(m) && m@
            == "the filter finished an activation without a result"@),
{
    match outcome {
        Err(e) => StepDecision::Fail(e),
        Ok(Some(f)) => match recorded {
            Some(m) => StepDecision::ReleaseAndFail(f, m),
            None => StepDecision::Produce(f),
        },
        Ok(None) => match recorded {
            Some(m) => StepDecision::Fail(m),
            None => {
                if has_requests {
                    StepDecision::Advance
                } else {
                    match reason {
                        ActivationReason::Initial => StepDecision::Retry,
                        _ => StepDecision::Fail(
                            "the filter finished an activation without a result".to_owned(),
                        ),
                    }
                }
            },
        },
    }
}

/// Whether node `idx` declared `source` among its dependencies.
pub open spec fn declares_dep<F>(nodes: Seq<NodeSlot<F>>, idx: int, source: usize) -> bool {
    exists|d: int|
        0 <= d < nodes[idx].deps@.len() && nodes[idx].deps@[d].source == source
}

/// The index the driver resolves for a request of frame `k` from a node
/// promising `num_frames` frames: clamped into the valid range.
pub open spec fn clamp_index(k: i32, num_frames: i32) -> i32 {
    if k < 0 {
        0
    } else if k >= num_frames {
        (num_frames - 1) as i32
    } else {
        k
    }
}

/// The fate of one upstream request, decided by [`validate_request`].
pub enum RequestOutcome {
    /// The request is resolved from this node, at this (clamped) index.
    Resolve(usize, i32),
    /// The request fails the activation with this message.
    Reject(String),
}

/// Validation of one upstream request `(source, k)` issued by node `idx`:
/// it is resolved, at the clamped index, exactly when the source is a
/// declared and still-live dependency; requesting from an undeclared or
/// freed node fails the activation. A declared dependency points strictly
/// upstream, so every resolved request recurses toward smaller nodes.
pub fn validate_request<F: Filter>(
    nodes: &Vec<NodeSlot<F>>,
    idx: usize,
    source: usize,
    k: i32,
) -> (r: RequestOutcome)
    requires
        nodes_wf(nodes@),
        idx < nodes@.len(),
    ensures
        declares_dep(nodes@, idx as int, source) ==> source < idx,
        (declares_dep(nodes@, idx as int, source) && nodes@[source as int].rc > 0) ==> r
            == RequestOutcome::Resolve(
            source,
            clamp_index(k, info_num_frames(nodes@[source as int].info)),
        ),
        !declares_dep(nodes@, idx as int, source) ==> (r matches RequestOutcome::Reject(m) && m@
            == "the filter requested a frame from an undeclared dependency"@),
        (declares_dep(nodes@, idx as int, source) && nodes@[source as int].rc == 0) ==> (r matches
            RequestOutcome::Reject(m) && m@ == "the filter requested a frame from a freed node"@),
        r matches RequestOutcome::Resolve(s, kk) ==> s == source && s < idx && 0 <= kk
            < info_num_frames(nodes@[s as int].info),
{
    let mut declared = false;
    let mut d: usize = 0;
    while d < nodes[idx].deps.len()
        invariant
            nodes_wf(nodes@),
            idx < nodes@.len(),
            d <= nodes@[idx as int].deps@.len(),
            declared ==> declares_dep(nodes@, idx as int, source) && source < idx,
            !declared ==> forall|j: int|
                0 <= j < d ==> (#[trigger] nodes@[idx as int].deps@[j]).source != source,
        decreases nodes@[idx as int].deps@.len() - d,
    {
        if nodes[idx].deps[d].source == source {
            proof {
                assert(nodes@[idx as int].slot_wf(idx as int));
                assert(nodes@[idx as int].deps@[d as int].source < idx);
            }
            declared = true;
        }
        d = d + 1;
    }
    if !declared {
        return RequestOutcome::Reject(
            "the filter requested a frame from an undeclared dependency".to_owned(),
        );
    }
    if nodes[source].rc == 0 {
        return RequestOutcome::Reject(
            "the filter requested a frame from a freed node".to_owned(),
        );
    }
    let nf = match nodes[source].info {
        Info::Video(vi) => vi.num_frames,
        Info::Audio(ai) => ai.num_frames,
    };
    proof {
        assert(nodes@[source as int].slot_wf(source as int));
    }
    let kk = if k < 0 {
        0
    } else if k >= nf {
        nf - 1
    } else {
        k
    };
    RequestOutcome::Resolve(source, kk)
}

/// Drives the activation protocol for output frame `n` of node `idx` to
/// completion and returns the produced frame or the error.
///
/// The filter is first invoked with reason `Initial`. While it defers with
/// pending requests, each requested frame is resolved recursively (every
/// dependency points strictly upstream, which bounds the recursion) and the
/// filter is re-invoked with `AllFramesReady`; a deferral without requests
/// is retried with `Initial` again, and the re-entry budget bounds both
/// kinds of retry. A failed upstream request leads to one final invocation
/// with reason `Error`, whose outcome is always a failure. The fate of each
/// invocation is decided by [`activation_step`], and each upstream request
/// by [`validate_request`]; their contracts state the step-by-step
/// discipline exactly. One scratch slot is created per output-frame
/// request, handed unchanged between invocations to every re-entry of that
/// request, and dropped with it: requests for different output indices
/// never share a slot. Whatever the filter did to the frame store, the
/// driver re-validates the result: a frame is returned only if it is live
/// and matches the node's registered stream description, and resolved
/// frames the filter did not take are released.
fn resolve<F: Filter>(nodes: &Vec<NodeSlot<F>>, r: &mut CoreRef, idx: usize, n: i32) -> (res:
    Result<Frame, String>)
    requires
        nodes_wf(nodes@),
        idx < nodes@.len(),
    ensures
        res matches Ok(f) ==> final(r).store.frame_live(f.spec_id()) && desc_matches_info(
            f.spec_desc(),
            nodes@[idx as int].info,
        ),
    decreases idx,
{
    let info = nodes[idx].info;
    let mut frame_data: Option<F::FrameData> = None;
    let mut ctx = FrameContext::new();
    let mut reason = ActivationReason::Initial;
    let mut fuel: u32 = ACTIVATION_REENTRY_BUDGET;
    let mut result: Result<Frame, String> = Err("the activation never ran".to_owned());
    let mut done = false;
    while !done
        invariant
            nodes_wf(nodes@),
            idx < nodes@.len(),
        decreases (if done { 0int } else { fuel as int + 1 }),
    {
        if fuel == 0 {
            result = Err("the filter exhausted its re-entry budget".to_owned());
            done = true;
        } else {
            fuel = fuel - 1;
            let outcome = nodes[idx].filter.get_frame(n, reason, &mut frame_data, &mut ctx, r);
            let recorded = ctx.take_error();
            let reqs = ctx.take_requests();
            match activation_step(outcome, recorded, reqs.len() > 0, reason) {
                StepDecision::Produce(f) => {
                    result = Ok(f);
                    done = true;
                },
                StepDecision::Fail(msg) => {
                    result = Err(msg);
                    done = true;
                },
                StepDecision::ReleaseAndFail(f, msg) => {
                    if r.store.is_live(f.id()) {
                        r.store.release(f.id());
                    }
                    result = Err(msg);
                    done = true;
                },
                StepDecision::Retry => {
                },
                StepDecision::Advance => {
                    let mut failed: Option<String> = None;
                    let mut j: usize = 0;
                    while j < reqs.len()
                        invariant
                            nodes_wf(nodes@),
                            idx < nodes@.len(),
                            j <= reqs@.len(),
                        decreases reqs@.len() - j,
                    {
                        match validate_request(nodes, idx, reqs[j].0, reqs[j].1) {
                            RequestOutcome::Reject(m) => {
                                failed = Some(m);
                                j = reqs.len();
                            },
                            RequestOutcome::Resolve(src, kk) => {
                                match resolve(nodes, r, src, kk) {
                                    Ok(f) => {
                                        ctx.push_resolved(src, kk, f);
                                        j = j + 1;
                                    },
                                    Err(e) => {
                                        failed = Some(e);
                                        j = reqs.len();
                                    },
                                }
                            },
                        }
                    }
                    match failed {
                        Some(msg) => {
                            let out2 = nodes[idx].filter.get_frame(
                                n,
                                ActivationReason::Error,
                                &mut frame_data,
                                &mut ctx,
                                r,
                            );
                            let _ = ctx.take_error();
                            match out2 {
                                Err(e2) => {
                                    result = Err(e2);
                                },
                                Ok(Some(f)) => {
                                    if r.store.is_live(f.id()) {
                                        r.store.release(f.id());
                                    }
                                    result = Err(msg);
                                },
                                Ok(None) => {
                                    result = Err(msg);
                                },
                            }
                            done = true;
                        },
                        None => {
                            reason = ActivationReason::AllFramesReady;
                        },
                    }
                },
            }
        }
    }
    let mut leftovers = ctx.take_resolved();
    while leftovers.len() > 0
        invariant
            true,
        decreases leftovers@.len(),
    {
        if let Some(entry) = leftovers.pop() {
            let f = entry.2;
            if r.store.is_live(f.id()) {
                r.store.release(f.id());
            }
        }
    }
    match result {
        Ok(f) => {
            if !r.store.is_live(f.id()) {
                return Err("the filter returned a frame that is not live".to_owned());
            }
            if !matches_info(f.desc(), &info) {
                r.store.release(f.id());
                return Err(
                    "the filter returned a frame that does not match the node's stream description".to_owned(),
                );
            }
            Ok(f)
        },
        Err(e) => Err(e),
    }
}

impl NodeRef {
    /// The v2 video registration path: constructs the node directly, or
    /// returns nothing if the name holds an embedded null byte or the
    /// stream description or a dependency is invalid.
    pub fn new_video<F: Filter>(
        name: &str,
        info: &VideoInfo,
        filter: F,
        dependencies: &Vec<FilterDependency>,
        core: &mut Core<F>,
    ) -> (r: Option<NodeRef>)
        requires
            old(core).wf(),
            dependencies@.len() <= 0x7fffffff,
        ensures
            final(core).wf(),
            final(core).r == old(core).r,
            r is Some <==> (!name_has_nul(name) && info_valid(Info::Video(*info)) && deps_ok(
                old(core).nodes@,
                dependencies@,
            )),
            r is None ==> final(core).nodes == old(core).nodes,
            r matches Some(node) ==> {
                &&& node.spec_index() == old(core).nodes@.len()
                &&& final(core).nodes@.len() == old(core).nodes@.len() + 1
                &&& final(core).nodes@.drop_last() == old(core).nodes@
                &&& final(core).nodes@.last().name@ == name@
                &&& final(core).nodes@.last().info == Info::Video(*info)
                &&& final(core).nodes@.last().deps@ == dependencies@
                &&& final(core).nodes@.last().rc == 1
                &&& !final(core).nodes@.last().freed
                &&& final(core).nodes@.last().filter == filter
                &&& final(core).nodes@.last().mode == F::declared_mode()
            },
    {
        match core.register_filter(name, Info::Video(*info), filter, dependencies) {
            Ok(node) => Some(node),
            Err(_) => None,
        }
    }

    /// The v2 audio registration path; see [`NodeRef::new_video`].
    pub fn new_audio<F: Filter>(
        name: &str,
        info: &AudioInfo,
        filter: F,
        dependencies: &Vec<FilterDependency>,
        core: &mut Core<F>,
    ) -> (r: Option<NodeRef>)
        requires
            old(core).wf(),
            dependencies@.len() <= 0x7fffffff,
        ensures
            final(core).wf(),
            final(core).r == old(core).r,
            r is Some <==> (!name_has_nul(name) && info_valid(Info::Audio(*info)) && deps_ok(
                old(core).nodes@,
                dependencies@,
            )),
            r is None ==> final(core).nodes == old(core).nodes,
            r matches Some(node) ==> {
                &&& node.spec_index() == old(core).nodes@.len()
                &&& final(core).nodes@.len() == old(core).nodes@.len() + 1
                &&& final(core).nodes@.drop_last() == old(core).nodes@
                &&& final(core).nodes@.last().name@ == name@
                &&& final(core).nodes@.last().info == Info::Audio(*info)
                &&& final(core).nodes@.last().deps@ == dependencies@
                &&& final(core).nodes@.last().rc == 1
                &&& !final(core).nodes@.last().freed
                &&& final(core).nodes@.last().filter == filter
                &&& final(core).nodes@.last().mode == F::declared_mode()
            },
    {
        match core.register_filter(name, Info::Audio(*info), filter, dependencies) {
            Ok(node) => Some(node),
            Err(_) => None,
        }
    }

    /// The media type of this node, to be checked before interpreting its
    /// metadata as video or audio.
    pub fn get_type<F: Filter>(&self, core: &Core<F>) -> (r: MediaType)
        requires
            self.spec_index() < core.nodes@.len(),
        ensures
            r == info_media_type(core.nodes@[self.spec_index() as int].info),
    {
        match core.nodes[self.index()].info {
            Info::Video(_) => MediaType::Video,
            Info::Audio(_) => MediaType::Audio,
        }
    }

    /// The video metadata of a node whose media type is video.
    pub fn get_video_info<F: Filter>(&self, core: &Core<F>) -> (r: VideoInfo)
        requires
            self.spec_index() < core.nodes@.len(),
            info_media_type(core.nodes@[self.spec_index() as int].info) is Video,
        ensures
            core.nodes@[self.spec_index() as int].info == Info::Video(r),
    {
        match core.nodes[self.index()].info {
            Info::Video(vi) => vi,
            Info::Audio(ai) => {
                proof {
                    assert(false);
                }
                VideoInfo {
                    format: VideoFormat {
                        color_family: ColorFamily::Undefined,
                        sample_type: SampleType::Integer,
                        bits_per_sample: 0,
                        bytes_per_sample: 0,
                        sub_sampling_w: 0,
                        sub_sampling_h: 0,
                        num_planes: 0,
                    },
                    fps_num: 0,
                    fps_den: 0,
                    width: 0,
                    height: 0,
                    num_frames: ai.num_frames,
                }
            },
        }
    }

    /// The audio metadata of a node whose media type is audio.
    pub fn get_audio_info<F: Filter>(&self, core: &Core<F>) -> (r: AudioInfo)
        requires
            self.spec_index() < core.nodes@.len(),
            info_media_type(core.nodes@[self.spec_index() as int].info) is Audio,
        ensures
            core.nodes@[self.spec_index() as int].info == Info::Audio(r),
    {
        match core.nodes[self.index()].info {
            Info::Audio(ai) => ai,
            Info::Video(vi) => {
                proof {
                    assert(false);
                }
                AudioInfo {
                    format: AudioFormat {
                        sample_type: SampleType::Integer,
                        bits_per_sample: 0,
                        bytes_per_sample: 0,
                        num_channels: 0,
                        channel_layout: 0,
                    },
                    sample_rate: 0,
                    num_samples: 0,
                    num_frames: vi.num_frames,
                }
            },
        }
    }

    /// The single safe metadata accessor: the tagged stream description.
    pub fn get_info<F: Filter>(&self, core: &Core<F>) -> (r: Info)
        requires
            self.spec_index() < core.nodes@.len(),
        ensures
            r == core.nodes@[self.spec_index() as int].info,
    {
        core.nodes[self.index()].info
    }

    /// Opts a node into the engine's linearization helper, so downstream
    /// consumers may still request frames out of order. Returns 0 when
    /// applied, -1 for a handle whose node is gone.
    pub fn set_linear_filter<F: Filter>(&self, core: &mut Core<F>) -> (r: i32)
        requires
            old(core).wf(),
        ensures
            final(core).wf(),
            final(core).r == old(core).r,
            old(core).node_live(self.spec_index() as int) ==> r == 0 && final(core).nodes@ == old(
                core,
            ).nodes@.update(
                self.spec_index() as int,
                (NodeSlot { linear: true, ..old(core).nodes@[self.spec_index() as int] }),
            ),
            !old(core).node_live(self.spec_index() as int) ==> r == -1 && final(core).nodes == old(
                core,
            ).nodes,
    {
        let idx = self.index();
        if idx >= core.nodes.len() || core.nodes[idx].rc == 0 {
            return -1;
        }
        let slot = &mut core.nodes[idx];
        slot.linear = true;
        proof {
            assert forall|k: int| 0 <= k < core.nodes@.len() implies (
            #[trigger] core.nodes@[k]).slot_wf(k) by {
                assert(old(core).nodes@[k].slot_wf(k));
            }
        }
        0
    }

    /// Sets the caching policy for this node's output frames.
    pub fn set_cache_mode<F: Filter>(&self, core: &mut Core<F>, mode: CacheMode)
        requires
            old(core).wf(),
        ensures
            final(core).wf(),
            final(core).r == old(core).r,
            old(core).node_live(self.spec_index() as int) ==> final(core).nodes@ == old(
                core,
            ).nodes@.update(
                self.spec_index() as int,
                (NodeSlot { cache_mode: mode, ..old(core).nodes@[self.spec_index() as int] }),
            ),
            !old(core).node_live(self.spec_index() as int) ==> final(core).nodes == old(
                core,
            ).nodes,
    {
        let idx = self.index();
        if idx >= core.nodes.len() || core.nodes[idx].rc == 0 {
            return ;
        }
        let slot = &mut core.nodes[idx];
        slot.cache_mode = mode;
        proof {
            assert forall|k: int| 0 <= k < core.nodes@.len() implies (
            #[trigger] core.nodes@[k]).slot_wf(k) by {
                assert(old(core).nodes@[k].slot_wf(k));
            }
        }
    }

    /// Sets the tuning parameters consumed when caching is active for this
    /// node.
    pub fn set_cache_options<F: Filter>(
        &self,
        core: &mut Core<F>,
        fixed_size: i32,
        max_size: i32,
        max_history_size: i32,
    )
        requires
            old(core).wf(),
        ensures
            final(core).wf(),
            final(core).r == old(core).r,
            old(core).node_live(self.spec_index() as int) ==> final(core).nodes@ == old(
                core,
            ).nodes@.update(
                self.spec_index() as int,
                (NodeSlot {
                    cache_fixed_size: fixed_size,
                    cache_max_size: max_size,
                    cache_max_history_size: max_history_size,
                    ..old(core).nodes@[self.spec_index() as int]
                }),
            ),
            !old(core).node_live(self.spec_index() as int) ==> final(core).nodes == old(
                core,
            ).nodes,
    {
        let idx = self.index();
        if idx >= core.nodes.len() || core.nodes[idx].rc == 0 {
            return ;
        }
        let slot = &mut core.nodes[idx];
        slot.cache_fixed_size = fixed_size;
        slot.cache_max_size = max_size;
        slot.cache_max_history_size = max_history_size;
        proof {
            assert forall|k: int| 0 <= k < core.nodes@.len() implies (
            #[trigger] core.nodes@[k]).slot_wf(k) by {
                assert(old(core).nodes@[k].slot_wf(k));
            }
        }
    }

    /// Synchronous, blocking pull of output frame `n`: drives the whole
    /// activation protocol to completion and returns the produced frame or
    /// a descriptive message. Fails on a dead handle, an out-of-range
    /// index, any filter error, and any upstream failure; a returned frame
    /// is always live and matches the node's registered stream description.
    ///
    /// The driver runs every invocation to completion on the calling
    /// thread, so the schedules it produces are serialized;
    /// [`crate::protocol::lemma_serialized_conforms_to_every_mode`] shows a
    /// serialized schedule respects every declared concurrency mode.
    pub fn get_frame<F: Filter>(&self, n: i32, core: &mut Core<F>) -> (r: Result<Frame, String>)
        requires
            old(core).wf(),
        ensures
            final(core).wf(),
            final(core).nodes == old(core).nodes,
            !old(core).node_live(self.spec_index() as int) ==> r is Err,
            old(core).node_live(self.spec_index() as int) && !(0 <= n < info_num_frames(
                old(core).nodes@[self.spec_index() as int].info,
            )) ==> r is Err,
            r matches Ok(f) ==> final(core).r.store.frame_live(f.spec_id()) && desc_matches_info(
                f.spec_desc(),
                old(core).nodes@[self.spec_index() as int].info,
            ),
    {
        let idx = self.index();
        if idx >= core.nodes.len() {
            return Err("the node handle does not denote a registered node".to_owned());
        }
        if core.nodes[idx].rc == 0 {
            return Err("the node has been freed".to_owned());
        }
        let nf = match core.nodes[idx].info {
            Info::Video(vi) => vi.num_frames,
            Info::Audio(ai) => ai.num_frames,
        };
        if n < 0 || n >= nf {
            return Err("the requested frame index is out of range".to_owned());
        }
        resolve(&core.nodes, &mut core.r, idx, n)
    }
}

} // verus!
