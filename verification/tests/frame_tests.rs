use vapoursynth4_rs::engine::{Core, CoreBuilder, CoreRef};
use vapoursynth4_rs::format::{ColorFamily, SampleType};
use vapoursynth4_rs::frame::{Frame, FrameDesc, MediaType};
use vapoursynth4_rs::node::{Filter, FrameContext, NodeRef, VideoInfo};
use vapoursynth4_rs::protocol::{ActivationReason, FilterMode};

struct NoopFilter;

impl Filter for NoopFilter {
    type FrameData = ();

    fn declared_mode() -> FilterMode {
        FilterMode::Parallel
    }

    fn mode(&self) -> FilterMode {
        FilterMode::Parallel
    }

    fn get_frame(
        &self,
        _n: i32,
        _activation_reason: ActivationReason,
        _frame_data: &mut Option<()>,
        _frame_ctx: &mut FrameContext,
        _core: &mut CoreRef,
    ) -> Result<Option<Frame>, String> {
        Ok(None)
    }

    fn free(&mut self, _core: &mut CoreRef) {}
}

fn inspecting_core() -> Core<NoopFilter> {
    CoreBuilder::new().enable_graph_inspection().build()
}

#[test]
fn new_video_frame_has_requested_shape() {
    let mut core = inspecting_core();
    let fmt = core.query_video_format(ColorFamily::Gray, SampleType::Integer, 8, 0, 0);
    let frame = core.new_video_frame(&fmt, 64, 64, None);
    assert!(matches!(frame.media_type(), MediaType::Video));
    match frame.desc() {
        FrameDesc::Video { format, width, height } => {
            assert_eq!(format, fmt);
            assert_eq!(width, 64);
            assert_eq!(height, 64);
        }
        FrameDesc::Audio { .. } => panic!("expected a video frame"),
    }
    assert_eq!(core.frame_ref_count(&frame), Some(1));
    assert_eq!(frame.prop_count(), 0);
}

#[test]
fn new_audio_frame_has_requested_shape() {
    let mut core = inspecting_core();
    let fmt = core.query_audio_format(SampleType::Integer, 16, 0x3);
    let frame = core.new_audio_frame(&fmt, 3000, None);
    assert!(matches!(frame.media_type(), MediaType::Audio));
    match frame.desc() {
        FrameDesc::Audio { format, num_samples } => {
            assert_eq!(format, fmt);
            assert_eq!(num_samples, 3000);
        }
        FrameDesc::Video { .. } => panic!("expected an audio frame"),
    }
}

#[test]
fn copy_frame_is_independent() {
    let mut core = inspecting_core();
    let fmt = core.query_video_format(ColorFamily::Gray, SampleType::Integer, 8, 0, 0);
    let original = core.new_video_frame(&fmt, 64, 64, None);
    let copy = core.copy_frame(&original);
    assert_eq!(copy.desc(), original.desc());
    assert_eq!(copy.prop_count(), original.prop_count());
    assert_ne!(copy.id(), original.id());
    // Freeing the copy must not affect the original's validity.
    core.free_frame(copy);
    assert_eq!(core.frame_ref_count(&original), Some(1));
    let still_usable = core.copy_frame(&original);
    assert_eq!(still_usable.desc(), original.desc());
}

#[test]
fn frame_refcount_frees_only_at_last_drop() {
    let mut core = inspecting_core();
    let fmt = core.query_video_format(ColorFamily::Gray, SampleType::Integer, 8, 0, 0);
    let frame = core.new_video_frame(&fmt, 16, 16, None);
    let n = 3;
    let mut clones = Vec::new();
    for _ in 0..n {
        clones.push(core.clone_frame(&frame));
    }
    assert_eq!(core.frame_ref_count(&frame), Some(1 + n as u64));
    for clone in clones {
        core.free_frame(clone);
    }
    // All n clones dropped: the buffer is still live through the original.
    assert_eq!(core.frame_ref_count(&frame), Some(1));
    let id = frame.id();
    core.free_frame(frame);
    let probe = core.new_video_frame(&fmt, 16, 16, None);
    assert_ne!(probe.id(), id, "a freed buffer id is never reused by the store");
}

#[test]
fn node_refcount_frees_only_at_last_drop() {
    let mut core = inspecting_core();
    let fmt = core.query_video_format(ColorFamily::Gray, SampleType::Integer, 8, 0, 0);
    let vi = VideoInfo {
        format: fmt,
        fps_num: 24,
        fps_den: 1,
        width: 16,
        height: 16,
        num_frames: 1,
    };
    let node = NodeRef::new_video("clip", &vi, NoopFilter, &Vec::new(), &mut core)
        .expect("registration must succeed");
    let second = core.clone_node(&node);
    let third = core.clone_node(&node);
    assert_eq!(core.node_ref_count(&node), Some(3));
    core.free_node(second);
    core.free_node(third);
    assert_eq!(core.node_ref_count(&node), Some(1));
    // The node still dispatches through the surviving handle: the no-op
    // filter defers forever, which exhausts the driver's re-entry budget
    // rather than reporting a dead handle.
    let err = node.get_frame(0, &mut core).unwrap_err();
    assert!(err.contains("re-entry budget"));
    core.free_node(node);
}

#[test]
fn prop_source_is_copied_not_referenced() {
    let mut core = inspecting_core();
    let fmt = core.query_video_format(ColorFamily::Gray, SampleType::Integer, 8, 0, 0);
    let source = core.new_video_frame(&fmt, 8, 8, None);
    let derived = core.new_video_frame(&fmt, 8, 8, Some(&source));
    assert_eq!(derived.prop_count(), source.prop_count());
    // The derived frame holds its own buffer and its own property list.
    assert_ne!(derived.id(), source.id());
    core.free_frame(source);
    assert_eq!(core.frame_ref_count(&derived), Some(1));
}

#[test]
fn composite_frame_takes_format_and_dimensions() {
    let mut core = inspecting_core();
    let fmt = core.query_video_format(ColorFamily::Gray, SampleType::Integer, 8, 0, 0);
    let source = core.new_video_frame(&fmt, 32, 32, None);
    let planes = vec![0];
    let srcs = vec![&source];
    let composed = core.new_video_frame2(&fmt, 32, 32, &srcs, &planes, Some(&source));
    match composed.desc() {
        FrameDesc::Video { format, width, height } => {
            assert_eq!(format, fmt);
            assert_eq!(width, 32);
            assert_eq!(height, 32);
        }
        FrameDesc::Audio { .. } => panic!("expected a video frame"),
    }
}
