use vapoursynth4_rs::engine::{Core, CoreBuilder, CoreRef, FilterError, FilterOutput, MessageType};
use vapoursynth4_rs::format::{ColorFamily, SampleType, VideoFormat};
use vapoursynth4_rs::frame::{Frame, FrameDesc, MediaType};
use vapoursynth4_rs::node::{
    activation_step, validate_request, AudioInfo, Filter, FilterDependency, FrameContext, Info,
    NodeRef, RequestOutcome, RequestPattern, StepDecision, VideoInfo,
};
use vapoursynth4_rs::protocol::{ActivationReason, FilterMode};

enum TestFilter {
    /// Produces a freshly allocated blank frame of the stored shape on
    /// `Initial`.
    Blank { format: VideoFormat, width: i32, height: i32 },
    /// Produces a blank audio frame of the stored shape on `Initial`.
    BlankAudio { samples: i32 },
    /// Requests frame `n` from its dependency on `Initial` and returns the
    /// dependency's frame unchanged on `AllFramesReady`.
    Pass { source: NodeRef },
    /// Requests the previous and the current dependency frame, in
    /// descending order, and returns the current one; the untaken frame is
    /// left for the engine to release.
    Window { source: NodeRef },
    /// Always fails.
    Boom,
    /// Defers without requesting anything, forever.
    Defer,
    /// Defers once, remembers the deferral in its scratch slot, and
    /// produces a blank frame on the retry.
    DeferOnce { format: VideoFormat },
    /// Reports its failure through the frame context instead of returning.
    CtxFail,
    /// Requests a frame on every invocation and never produces one.
    Greedy { source: NodeRef },
    /// Requests a frame from a node it never declared as a dependency.
    Undeclared { source: NodeRef },
    /// Logs on teardown, to show the hook runs exactly once.
    LogOnFree,
}

impl Filter for TestFilter {
    type FrameData = ();

    fn declared_mode() -> FilterMode {
        FilterMode::Parallel
    }

    fn mode(&self) -> FilterMode {
        FilterMode::Parallel
    }

    fn get_frame(
        &self,
        n: i32,
        activation_reason: ActivationReason,
        _frame_data: &mut Option<()>,
        frame_ctx: &mut FrameContext,
        core: &mut CoreRef,
    ) -> Result<Option<Frame>, String> {
        match self {
            TestFilter::Blank { format, width, height } => match activation_reason {
                ActivationReason::Initial => {
                    Ok(Some(core.new_video_frame(format, *width, *height, None)))
                }
                _ => Err("unexpected re-entry of a request-free filter".to_string()),
            },
            TestFilter::BlankAudio { samples } => match activation_reason {
                ActivationReason::Initial => {
                    let fmt = vapoursynth4_rs::format::AudioFormat {
                        sample_type: SampleType::Integer,
                        bits_per_sample: 16,
                        bytes_per_sample: 2,
                        num_channels: 2,
                        channel_layout: 0x3,
                    };
                    Ok(Some(core.new_audio_frame(&fmt, *samples, None)))
                }
                _ => Err("unexpected re-entry of a request-free filter".to_string()),
            },
            TestFilter::Pass { source } => match activation_reason {
                ActivationReason::Initial => {
                    frame_ctx.request_frame_filter(n, source);
                    Ok(None)
                }
                ActivationReason::AllFramesReady => match frame_ctx.get_frame_filter(n, source) {
                    Some(frame) => Ok(Some(frame)),
                    None => Err("the requested frame was not resolved".to_string()),
                },
                ActivationReason::Error => Err("upstream failed".to_string()),
            },
            TestFilter::Window { source } => match activation_reason {
                ActivationReason::Initial => {
                    let prev = if n > 0 { n - 1 } else { 0 };
                    frame_ctx.request_frame_filter(n, source);
                    frame_ctx.request_frame_filter(prev, source);
                    Ok(None)
                }
                ActivationReason::AllFramesReady => match frame_ctx.get_frame_filter(n, source) {
                    Some(frame) => Ok(Some(frame)),
                    None => Err("the requested frame was not resolved".to_string()),
                },
                ActivationReason::Error => Err("upstream failed".to_string()),
            },
            TestFilter::Boom => Err("boom".to_string()),
            TestFilter::Defer => Ok(None),
            TestFilter::DeferOnce { format } => {
                if _frame_data.is_none() {
                    *_frame_data = Some(());
                    Ok(None)
                } else {
                    Ok(Some(core.new_video_frame(format, 64, 64, None)))
                }
            }
            TestFilter::CtxFail => {
                frame_ctx.set_filter_error("reported through the context".to_string());
                Ok(None)
            }
            TestFilter::Greedy { source } => {
                frame_ctx.request_frame_filter(n, source);
                Ok(None)
            }
            TestFilter::Undeclared { source } => match activation_reason {
                ActivationReason::Initial => {
                    frame_ctx.request_frame_filter(n, source);
                    Ok(None)
                }
                // On the error re-entry, defer to the engine's own message.
                _ => Ok(None),
            },
            TestFilter::LogOnFree => Ok(None),
        }
    }

    fn free(&mut self, core: &mut CoreRef) {
        if let TestFilter::LogOnFree = self {
            core.log(MessageType::Debug, "filter torn down");
        }
    }
}

fn gray8(core: &Core<TestFilter>) -> VideoFormat {
    core.query_video_format(ColorFamily::Gray, SampleType::Integer, 8, 0, 0)
}

fn video_info(format: VideoFormat, num_frames: i32) -> VideoInfo {
    VideoInfo {
        format,
        fps_num: 24,
        fps_den: 1,
        width: 64,
        height: 64,
        num_frames,
    }
}

#[test]
fn blank_filter_produces_gray8_frame() {
    let mut core: Core<TestFilter> = Core::new();
    let fmt = gray8(&core);
    let vi = video_info(fmt, 1);
    let filter = TestFilter::Blank {
        format: fmt,
        width: 64,
        height: 64,
    };
    let node = NodeRef::new_video("blank", &vi, filter, &Vec::new(), &mut core)
        .expect("registration must succeed");
    let frame = node.get_frame(0, &mut core).expect("the pull must succeed");
    match frame.desc() {
        FrameDesc::Video { format, width, height } => {
            assert_eq!(format, fmt);
            assert_eq!(width, 64);
            assert_eq!(height, 64);
        }
        FrameDesc::Audio { .. } => panic!("expected a video frame"),
    }
}

#[test]
fn dependency_frame_passes_through_unchanged() {
    let mut core: Core<TestFilter> = Core::new();
    let fmt = gray8(&core);
    let vi = video_info(fmt, 10);
    let blank = TestFilter::Blank {
        format: fmt,
        width: 64,
        height: 64,
    };
    let source = NodeRef::new_video("source", &vi, blank, &Vec::new(), &mut core)
        .expect("registration must succeed");
    let dep = FilterDependency::new(&source, RequestPattern::General);
    let pass = NodeRef::new_video(
        "pass",
        &vi,
        TestFilter::Pass { source },
        &vec![dep],
        &mut core,
    )
    .expect("registration must succeed");
    let allocated_before = core.r.store.len();
    let frame = pass.get_frame(5, &mut core).expect("the pull must succeed");
    // Exactly one frame was allocated during the pull (by the source), and
    // the composed node handed that very frame through.
    assert_eq!(core.r.store.len(), allocated_before + 1);
    assert_eq!(frame.id(), allocated_before);
    match frame.desc() {
        FrameDesc::Video { format, width, height } => {
            assert_eq!((format, width, height), (fmt, 64, 64));
        }
        FrameDesc::Audio { .. } => panic!("expected a video frame"),
    }
}

#[test]
fn failing_filter_surfaces_its_message_for_every_index() {
    let mut core: Core<TestFilter> = Core::new();
    let fmt = gray8(&core);
    let vi = video_info(fmt, 10);
    let node = NodeRef::new_video("boom", &vi, TestFilter::Boom, &Vec::new(), &mut core)
        .expect("registration must succeed");
    for n in [0, 1, 5, 9] {
        let err = node.get_frame(n, &mut core).unwrap_err();
        assert!(err.contains("boom"), "unexpected message: {err}");
    }
}

#[test]
fn out_of_order_window_requests_are_accepted() {
    let mut core: Core<TestFilter> = Core::new();
    let fmt = gray8(&core);
    let vi = video_info(fmt, 10);
    let blank = TestFilter::Blank {
        format: fmt,
        width: 64,
        height: 64,
    };
    let source = NodeRef::new_video("source", &vi, blank, &Vec::new(), &mut core)
        .expect("registration must succeed");
    let dep = FilterDependency::new(&source, RequestPattern::General);
    let window = NodeRef::new_video(
        "window",
        &vi,
        TestFilter::Window { source },
        &vec![dep],
        &mut core,
    )
    .expect("registration must succeed");
    // The filter requests its dependency frames in descending order, takes
    // one and leaves one; the pull must still succeed at every index,
    // including the clamped edge.
    for n in [0, 3, 9] {
        let frame = window.get_frame(n, &mut core).expect("the pull must succeed");
        assert!(matches!(frame.media_type(), MediaType::Video));
    }
}

#[test]
fn embedded_null_name_is_rejected_and_registers_nothing() {
    let mut core: Core<TestFilter> = Core::new();
    let fmt = gray8(&core);
    let vi = video_info(fmt, 1);
    let nodes_before = core.nodes.len();
    let mut out = FilterOutput::new();
    let filter = TestFilter::Blank {
        format: fmt,
        width: 64,
        height: 64,
    };
    let r = core.create_video_filter(&mut out, "bad\0name", &vi, filter, &Vec::new());
    assert!(matches!(r, Err(FilterError::InvalidName)));
    assert!(out.take_node().is_none());
    assert_eq!(core.nodes.len(), nodes_before);
    // The v2 path rejects the same name by returning no node.
    let filter2 = TestFilter::Blank {
        format: fmt,
        width: 64,
        height: 64,
    };
    let none = NodeRef::new_video("also\0bad", &vi, filter2, &Vec::new(), &mut core);
    assert!(none.is_none());
    assert_eq!(core.nodes.len(), nodes_before);
}

#[test]
fn v1_registration_reports_engine_errors_in_the_output_slot() {
    let mut core: Core<TestFilter> = Core::new();
    let fmt = gray8(&core);
    let vi = video_info(fmt, 0);
    let mut out = FilterOutput::new();
    let filter = TestFilter::Blank {
        format: fmt,
        width: 64,
        height: 64,
    };
    // A stream description promising no frames is an engine rejection.
    let r = core.create_video_filter(&mut out, "empty", &vi, filter, &Vec::new());
    assert!(matches!(r, Err(FilterError::Internal(_))));
    assert!(out.get_error().is_some());
    assert!(out.take_node().is_none());
}

#[test]
fn audio_registration_and_pull() {
    let mut core: Core<TestFilter> = Core::new();
    let afmt = core.query_audio_format(SampleType::Integer, 16, 0x3);
    let ai = AudioInfo {
        format: afmt,
        sample_rate: 48000,
        num_samples: 6000,
        num_frames: 2,
    };
    let mut out = FilterOutput::new();
    let r = core.create_audio_filter(
        &mut out,
        "tone",
        &ai,
        TestFilter::BlankAudio { samples: 3000 },
        &Vec::new(),
    );
    assert!(r.is_ok());
    let node = out.take_node().expect("the output slot holds the node");
    assert!(matches!(node.get_type(&core), MediaType::Audio));
    assert_eq!(node.get_audio_info(&core), ai);
    assert_eq!(node.get_info(&core), Info::Audio(ai));
    let frame = node.get_frame(1, &mut core).expect("the pull must succeed");
    assert!(matches!(frame.media_type(), MediaType::Audio));
    let bad = core.create_audio_filter(
        &mut out,
        "bad\0tone",
        &ai,
        TestFilter::BlankAudio { samples: 3000 },
        &Vec::new(),
    );
    assert!(matches!(bad, Err(FilterError::InvalidName)));
}

#[test]
fn endless_deferral_hits_the_budget() {
    let mut core: Core<TestFilter> = Core::new();
    let fmt = gray8(&core);
    let vi = video_info(fmt, 1);
    let node = NodeRef::new_video("defer", &vi, TestFilter::Defer, &Vec::new(), &mut core)
        .expect("registration must succeed");
    let err = node.get_frame(0, &mut core).unwrap_err();
    assert!(err.contains("re-entry budget"), "unexpected message: {err}");
}

#[test]
fn scratch_slot_persists_across_re_entry() {
    let mut core: Core<TestFilter> = Core::new();
    let fmt = gray8(&core);
    let vi = video_info(fmt, 1);
    let node = NodeRef::new_video(
        "deferred",
        &vi,
        TestFilter::DeferOnce { format: fmt },
        &Vec::new(),
        &mut core,
    )
    .expect("registration must succeed");
    // The filter defers once, marks the deferral in its per-request scratch
    // slot, and produces on the retry of the same request.
    let frame = node.get_frame(0, &mut core).expect("the retry must succeed");
    assert!(matches!(frame.media_type(), MediaType::Video));
}

#[test]
fn context_reported_error_fails_the_pull() {
    let mut core: Core<TestFilter> = Core::new();
    let fmt = gray8(&core);
    let vi = video_info(fmt, 1);
    let node = NodeRef::new_video("ctx", &vi, TestFilter::CtxFail, &Vec::new(), &mut core)
        .expect("registration must succeed");
    let err = node.get_frame(0, &mut core).unwrap_err();
    assert!(err.contains("reported through the context"), "unexpected message: {err}");
}

#[test]
fn endless_re_entry_hits_the_budget() {
    let mut core: Core<TestFilter> = Core::new();
    let fmt = gray8(&core);
    let vi = video_info(fmt, 4);
    let blank = TestFilter::Blank {
        format: fmt,
        width: 64,
        height: 64,
    };
    let source = NodeRef::new_video("source", &vi, blank, &Vec::new(), &mut core)
        .expect("registration must succeed");
    let dep = FilterDependency::new(&source, RequestPattern::General);
    let greedy = NodeRef::new_video(
        "greedy",
        &vi,
        TestFilter::Greedy { source },
        &vec![dep],
        &mut core,
    )
    .expect("registration must succeed");
    let err = greedy.get_frame(0, &mut core).unwrap_err();
    assert!(err.contains("re-entry budget"), "unexpected message: {err}");
}

#[test]
fn undeclared_dependency_request_fails_the_pull() {
    let mut core: Core<TestFilter> = Core::new();
    let fmt = gray8(&core);
    let vi = video_info(fmt, 2);
    let blank = TestFilter::Blank {
        format: fmt,
        width: 64,
        height: 64,
    };
    let source = NodeRef::new_video("source", &vi, blank, &Vec::new(), &mut core)
        .expect("registration must succeed");
    // Registered with an empty dependency array, yet requesting from source.
    let sneaky = NodeRef::new_video(
        "sneaky",
        &vi,
        TestFilter::Undeclared { source },
        &Vec::new(),
        &mut core,
    )
    .expect("registration must succeed");
    let err = sneaky.get_frame(0, &mut core).unwrap_err();
    assert!(err.contains("undeclared"), "unexpected message: {err}");
}

#[test]
fn wrong_shape_result_is_rejected_by_the_engine() {
    let mut core: Core<TestFilter> = Core::new();
    let fmt = gray8(&core);
    let gray16 = core.query_video_format(ColorFamily::Gray, SampleType::Integer, 16, 0, 0);
    let vi = video_info(fmt, 1);
    // The filter produces Gray16 frames for a node registered as Gray8.
    let filter = TestFilter::Blank {
        format: gray16,
        width: 64,
        height: 64,
    };
    let node = NodeRef::new_video("wrong", &vi, filter, &Vec::new(), &mut core)
        .expect("registration must succeed");
    let err = node.get_frame(0, &mut core).unwrap_err();
    assert!(err.contains("stream description"), "unexpected message: {err}");
}

#[test]
fn out_of_range_and_dead_handles_fail_fast() {
    let mut core: Core<TestFilter> = Core::new();
    let fmt = gray8(&core);
    let vi = video_info(fmt, 3);
    let filter = TestFilter::Blank {
        format: fmt,
        width: 64,
        height: 64,
    };
    let node = NodeRef::new_video("short", &vi, filter, &Vec::new(), &mut core)
        .expect("registration must succeed");
    assert!(node.get_frame(-1, &mut core).is_err());
    assert!(node.get_frame(3, &mut core).is_err());
    assert!(node.get_frame(2, &mut core).is_ok());
    let survivor = core.clone_node(&node);
    core.free_node(node);
    assert!(survivor.get_frame(0, &mut core).is_ok());
    core.free_node(survivor);
}

#[test]
fn dependency_on_freed_node_is_rejected_at_registration() {
    let mut core: Core<TestFilter> = Core::new();
    let fmt = gray8(&core);
    let vi = video_info(fmt, 1);
    let blank = TestFilter::Blank {
        format: fmt,
        width: 64,
        height: 64,
    };
    let source = NodeRef::new_video("gone", &vi, blank, &Vec::new(), &mut core)
        .expect("registration must succeed");
    let dep = FilterDependency::new(&source, RequestPattern::General);
    core.free_node(source);
    let r = NodeRef::new_video("orphan", &vi, TestFilter::Defer, &vec![dep], &mut core);
    assert!(r.is_none());
}

#[test]
fn teardown_hook_runs_exactly_once() {
    let mut core: Core<TestFilter> = Core::new();
    let fmt = gray8(&core);
    let vi = video_info(fmt, 1);
    let node = NodeRef::new_video("hooked", &vi, TestFilter::LogOnFree, &Vec::new(), &mut core)
        .expect("registration must succeed");
    let second = core.clone_node(&node);
    let logs_before = core.r.log.len();
    core.free_node(node);
    assert_eq!(core.r.log.len(), logs_before, "no teardown while a handle survives");
    core.free_node(second);
    assert_eq!(core.r.log.len(), logs_before + 1, "teardown exactly at the last release");
}

#[test]
fn cache_and_linear_settings_apply_to_the_slot() {
    let mut core: Core<TestFilter> = Core::new();
    let fmt = gray8(&core);
    let vi = video_info(fmt, 1);
    let node = NodeRef::new_video("tuned", &vi, TestFilter::Defer, &Vec::new(), &mut core)
        .expect("registration must succeed");
    assert_eq!(node.set_linear_filter(&mut core), 0);
    node.set_cache_mode(&mut core, vapoursynth4_rs::node::CacheMode::ForceEnable);
    node.set_cache_options(&mut core, 1, 100, 10);
    let idx = node.index();
    assert!(core.nodes[idx].linear);
    assert!(matches!(
        core.nodes[idx].cache_mode,
        vapoursynth4_rs::node::CacheMode::ForceEnable
    ));
    assert_eq!(core.nodes[idx].cache_max_size, 100);
    assert!(matches!(node.get_type(&core), MediaType::Video));
    assert_eq!(node.get_video_info(&core), vi);
}


#[test]
fn pre_engine_failures_leave_the_output_slot_untouched() {
    let mut core: Core<TestFilter> = Core::new();
    let fmt = gray8(&core);
    let vi = video_info(fmt, 1);
    let mut out = FilterOutput::new();
    let good = TestFilter::Blank {
        format: fmt,
        width: 64,
        height: 64,
    };
    core.create_video_filter(&mut out, "first", &vi, good, &Vec::new())
        .expect("registration must succeed");
    // An invalid name is rejected before the engine is entered, so the slot
    // still holds the earlier registration's node.
    let second = TestFilter::Blank {
        format: fmt,
        width: 64,
        height: 64,
    };
    let r = core.create_video_filter(&mut out, "se\0cond", &vi, second, &Vec::new());
    assert!(matches!(r, Err(FilterError::InvalidName)));
    let kept = out.take_node().expect("the earlier node is still in the slot");
    assert_eq!(kept.index(), 0);
}

#[test]
fn activation_step_decides_each_outcome() {
    let mut core: Core<TestFilter> = Core::new();
    let fmt = gray8(&core);
    let frame = core.new_video_frame(&fmt, 8, 8, None);
    match activation_step(Ok(Some(frame)), None, false, ActivationReason::Initial) {
        StepDecision::Produce(f) => assert_eq!(f.id(), 0),
        _ => panic!("a produced frame with no error finishes the request"),
    }
    match activation_step(Err("boom".to_string()), None, false, ActivationReason::Initial) {
        StepDecision::Fail(m) => assert_eq!(m, "boom"),
        _ => panic!("an error outcome fails with exactly its message"),
    }
    match activation_step(
        Ok(None),
        Some("recorded".to_string()),
        true,
        ActivationReason::AllFramesReady,
    ) {
        StepDecision::Fail(m) => assert_eq!(m, "recorded"),
        _ => panic!("a recorded context error fails the request"),
    }
    assert!(matches!(
        activation_step(Ok(None), None, true, ActivationReason::Initial),
        StepDecision::Advance
    ));
    assert!(matches!(
        activation_step(Ok(None), None, false, ActivationReason::Initial),
        StepDecision::Retry
    ));
    match activation_step(Ok(None), None, false, ActivationReason::AllFramesReady) {
        StepDecision::Fail(m) => assert!(m.contains("without a result")),
        _ => panic!("a re-entry without a result is a protocol violation"),
    }
}

#[test]
fn validate_request_resolves_declared_live_sources_with_clamping() {
    let mut core: Core<TestFilter> = Core::new();
    let fmt = gray8(&core);
    let vi = video_info(fmt, 10);
    let blank = TestFilter::Blank {
        format: fmt,
        width: 64,
        height: 64,
    };
    let source = NodeRef::new_video("source", &vi, blank, &Vec::new(), &mut core)
        .expect("registration must succeed");
    let dep = FilterDependency::new(&source, RequestPattern::General);
    let consumer = NodeRef::new_video(
        "consumer",
        &vi,
        TestFilter::Pass { source },
        &vec![dep],
        &mut core,
    )
    .expect("registration must succeed");
    let idx = consumer.index();
    assert!(matches!(
        validate_request(&core.nodes, idx, 0, 4),
        RequestOutcome::Resolve(0, 4)
    ));
    // Out-of-range requests are clamped into the source's frame range.
    assert!(matches!(
        validate_request(&core.nodes, idx, 0, -7),
        RequestOutcome::Resolve(0, 0)
    ));
    assert!(matches!(
        validate_request(&core.nodes, idx, 0, 99),
        RequestOutcome::Resolve(0, 9)
    ));
    // A source that was never declared is rejected.
    match validate_request(&core.nodes, idx, idx, 3) {
        RequestOutcome::Reject(m) => assert!(m.contains("undeclared")),
        RequestOutcome::Resolve(_, _) => panic!("an undeclared source must be rejected"),
    }
}
