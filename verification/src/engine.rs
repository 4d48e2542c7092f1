//! The core: owner of the frame store and the node graph.
//!
//! A [`Core`] is the factory and configuration surface of the engine: it
//! allocates frames, answers format queries, registers filters as nodes, and
//! tracks every reference count. [`CoreRef`] is the facet of the core that a
//! filter receives during an activation: the frame store and the log, but
//! not the node graph, so a filter can never re-enter the dispatcher.

use vstd::prelude::*;
use vstd::string::StringSliceAdditionalSpecFns;
use crate::format::{
    lemma_count_channels_bound, popcount64, spec_format_of_id, spec_query_audio_format,
    spec_query_video_format, spec_video_format_id, zero_video_format, AudioFormat, ColorFamily,
    SampleType, VideoFormat,
};
use crate::frame::{Frame, FrameDesc, FrameStore, Props};
use crate::node::{
    info_valid, nodes_wf, AudioInfo, CacheMode, FilterDependency, Info, NodeRef, NodeSlot,
    VideoInfo, Filter,
};

verus! {

/// Severity of a message forwarded to the engine's log sink.
#[derive(Clone, Copy, PartialEq, Eq, Structural, Debug, Hash)]
pub enum MessageType {
    Debug,
    Information,
    Warning,
    Critical,
    Fatal,
}

/// One message recorded by the engine's log sink.
pub struct LogEntry {
    pub level: MessageType,
    pub message: String,
}

/// Construction-time failures of filter registration.
#[derive(Debug)]
pub enum FilterError {
    /// The filter name contains an embedded null byte.
    InvalidName,
    /// The dependency array is longer than the protocol's 32-bit limit.
    TooMuchDependency,
    /// The engine rejected the registration; the message says why.
    Internal(String),
}

/// The name a registration rejects: one with an embedded null byte.
pub open spec fn name_has_nul(name: &str) -> bool {
    name.spec_bytes().contains(0u8)
}

/// A borrowed plane source: a video frame that has the given plane.
pub open spec fn video_plane_ok(f: Frame, plane: i32) -> bool {
    match f.spec_desc() {
        FrameDesc::Video { format, .. } => 0 <= plane < format.num_planes,
        FrameDesc::Audio { .. } => false,
    }
}

/// A borrowed channel source: an audio frame that has the given channel.
pub open spec fn audio_channel_ok(f: Frame, channel: i32) -> bool {
    match f.spec_desc() {
        FrameDesc::Audio { format, .. } => 0 <= channel < format.num_channels,
        FrameDesc::Video { .. } => false,
    }
}

/// Every declared dependency must point at a live node of the graph.
pub open spec fn deps_ok<F>(nodes: Seq<NodeSlot<F>>, deps: Seq<FilterDependency>) -> bool {
    forall|i: int|
        0 <= i < deps.len() ==> (#[trigger] deps[i]).source < nodes.len()
            && nodes[deps[i].source as int].rc > 0
}

/// The facet of the core a filter may use during an activation: the frame
/// store for allocating, duplicating and releasing frames, the engine
/// configuration, and the log sink. It carries no access to the node graph.
pub struct CoreRef {
    pub store: FrameStore,
    pub max_cache_size: i64,
    pub thread_count: i32,
    pub graph_inspection: bool,
    pub auto_loading_disabled: bool,
    pub library_unloading_disabled: bool,
    pub log: Vec<LogEntry>,
}

impl CoreRef {
    /// Allocates a fresh video frame of the given format and dimensions,
    /// copying the properties of `prop_src` if one is given.
    pub fn new_video_frame(
        &mut self,
        format: &VideoFormat,
        width: i32,
        height: i32,
        prop_src: Option<&Frame>,
    ) -> (f: Frame)
        ensures
            *final(self) == (CoreRef { store: final(self).store, ..*old(self) }),
            final(self).store@ == old(self).store@.push(1),
            f.spec_id() == old(self).store@.len(),
            final(self).store.frame_live(f.spec_id()),
            f.spec_desc() == (FrameDesc::Video { format: *format, width, height }),
            prop_src matches Some(s) ==> f.spec_props() == s.spec_props(),
            prop_src is None ==> f.spec_props() == Seq::<(u64, i64)>::empty(),
    {
        let props = match prop_src {
            Some(s) => s.copy_props(),
            None => Props::empty(),
        };
        let id = self.store.allocate();
        Frame::make(id, FrameDesc::Video { format: *format, width, height }, props)
    }

    /// Allocates a fresh audio frame of the given format and sample count,
    /// copying the properties of `prop_src` if one is given.
    pub fn new_audio_frame(
        &mut self,
        format: &AudioFormat,
        num_samples: i32,
        prop_src: Option<&Frame>,
    ) -> (f: Frame)
        ensures
            *final(self) == (CoreRef { store: final(self).store, ..*old(self) }),
            final(self).store@ == old(self).store@.push(1),
            f.spec_id() == old(self).store@.len(),
            final(self).store.frame_live(f.spec_id()),
            f.spec_desc() == (FrameDesc::Audio { format: *format, num_samples }),
            prop_src matches Some(s) ==> f.spec_props() == s.spec_props(),
            prop_src is None ==> f.spec_props() == Seq::<(u64, i64)>::empty(),
    {
        let props = match prop_src {
            Some(s) => s.copy_props(),
            None => Props::empty(),
        };
        let id = self.store.allocate();
        Frame::make(id, FrameDesc::Audio { format: *format, num_samples }, props)
    }

    /// Deep-copies a frame: a new independent buffer with the same stream
    /// description and the same property list. The source keeps its own
    /// references and stays live.
    pub fn copy_frame(&mut self, frame: &Frame) -> (f: Frame)
        requires
            old(self).store.frame_live(frame.spec_id()),
        ensures
            *final(self) == (CoreRef { store: final(self).store, ..*old(self) }),
            final(self).store@ == old(self).store@.push(1),
            f.spec_id() == old(self).store@.len(),
            f.spec_id() != frame.spec_id(),
            final(self).store.frame_live(f.spec_id()),
            final(self).store.frame_live(frame.spec_id()),
            final(self).store@[frame.spec_id()] == old(self).store@[frame.spec_id()],
            f.spec_desc() == frame.spec_desc(),
            f.spec_props() == frame.spec_props(),
    {
        let props = frame.copy_props();
        let desc = frame.desc();
        let id = self.store.allocate();
        Frame::make(id, desc, props)
    }

    /// Duplicates a handle: one more reference to the same buffer.
    pub fn clone_frame(&mut self, frame: &Frame) -> (f: Frame)
        requires
            old(self).store.frame_live(frame.spec_id()),
            old(self).store@[frame.spec_id()] < u64::MAX,
        ensures
            *final(self) == (CoreRef { store: final(self).store, ..*old(self) }),
            final(self).store@ == old(self).store@.update(
                frame.spec_id(),
                (old(self).store@[frame.spec_id()] + 1) as u64,
            ),
            f.spec_id() == frame.spec_id(),
            f.spec_desc() == frame.spec_desc(),
            f.spec_props() == frame.spec_props(),
    {
        let id = frame.id();
        self.store.add_ref(id);
        Frame::make(id, frame.desc(), frame.copy_props())
    }

    /// Releases a handle: one reference fewer. The buffer is freed exactly
    /// when this was the last reference.
    pub fn free_frame(&mut self, frame: Frame)
        requires
            old(self).store.frame_live(frame.spec_id()),
        ensures
            *final(self) == (CoreRef { store: final(self).store, ..*old(self) }),
            final(self).store@ == old(self).store@.update(
                frame.spec_id(),
                (old(self).store@[frame.spec_id()] - 1) as u64,
            ),
            final(self).store.frame_live(frame.spec_id()) <==> old(self).store@[frame.spec_id()]
                > 1,
    {
        let id = frame.id();
        self.store.release(id);
    }

    /// Forwards a leveled message to the engine's log sink.
    pub fn log(&mut self, level: MessageType, msg: &str)
        ensures
            *final(self) == (CoreRef { log: final(self).log, ..*old(self) }),
            final(self).log@.len() == old(self).log@.len() + 1,
            final(self).log@.subrange(0, old(self).log@.len() as int) == old(self).log@,
            final(self).log@.last().level == level,
            final(self).log@.last().message@ == msg@,
    {
        self.log.push(LogEntry { level, message: msg.to_owned() });
        proof {
            assert(self.log@.subrange(0, old(self).log@.len() as int) =~= old(self).log@);
        }
    }
}

fn zero_video_format_exec() -> (r: VideoFormat)
    ensures
        r == zero_video_format(),
{
    VideoFormat {
        color_family: ColorFamily::Undefined,
        sample_type: SampleType::Integer,
        bits_per_sample: 0,
        bytes_per_sample: 0,
        sub_sampling_w: 0,
        sub_sampling_h: 0,
        num_planes: 0,
    }
}

/// Pure format queries, shared by [`Core`] and usable from anywhere.
fn compute_video_format(
    color_family: ColorFamily,
    sample_type: SampleType,
    bits_per_sample: i32,
    subsampling_w: i32,
    subsampling_h: i32,
) -> (r: VideoFormat)
    ensures
        r == spec_query_video_format(
            color_family,
            sample_type,
            bits_per_sample,
            subsampling_w,
            subsampling_h,
        ),
{
    let family_ok = match color_family {
        ColorFamily::Undefined => false,
        _ => true,
    };
    let float_ok = match sample_type {
        SampleType::Integer => true,
        SampleType::Float => bits_per_sample == 16 || bits_per_sample == 32,
    };
    let sub_ok = 0 <= subsampling_w && subsampling_w <= 4 && 0 <= subsampling_h && subsampling_h
        <= 4 && ((subsampling_w == 0 && subsampling_h == 0) || matches!(
        color_family,
        ColorFamily::YUV,
    ));
    if family_ok && 8 <= bits_per_sample && bits_per_sample <= 32 && float_ok && sub_ok {
        VideoFormat {
            color_family,
            sample_type,
            bits_per_sample,
            bytes_per_sample: if bits_per_sample <= 8 {
                1
            } else if bits_per_sample <= 16 {
                2
            } else {
                4
            },
            sub_sampling_w: subsampling_w,
            sub_sampling_h: subsampling_h,
            num_planes: if matches!(color_family, ColorFamily::Gray) {
                1
            } else {
                3
            },
        }
    } else {
        zero_video_format_exec()
    }
}

/// The core: single owner of the engine instance. Exclusive access is
/// required for configuration and registration; shared access suffices for
/// the pure format queries.
pub struct Core<F: Filter> {
    pub r: CoreRef,
    pub nodes: Vec<NodeSlot<F>>,
}

/// The frame-cache budget a fresh core starts with: one gibibyte.
pub const DEFAULT_MAX_CACHE_SIZE: i64 = 1073741824;

/// What [`Core::get_info`] reports of the engine's current configuration.
#[derive(Clone, Copy, PartialEq, Eq, Structural, Debug)]
pub struct CoreInfo {
    pub num_threads: i32,
    pub max_framebuffer_size: i64,
}

impl<F: Filter> Core<F> {
    /// Well-formedness of the whole core: the node graph is well-formed.
    pub open spec fn wf(self) -> bool {
        nodes_wf(self.nodes@)
    }

    /// Node `i` exists and still has at least one reference.
    pub open spec fn node_live(self, i: int) -> bool {
        0 <= i < self.nodes@.len() && self.nodes@[i].rc > 0
    }

    /// A fresh core: no nodes, no frames, default configuration.
    pub fn new() -> (r: Core<F>)
        ensures
            r.wf(),
            r.nodes@ == Seq::<NodeSlot<F>>::empty(),
            r.r.store@ == Seq::<u64>::empty(),
            r.r.max_cache_size == DEFAULT_MAX_CACHE_SIZE,
            r.r.thread_count == 1,
            !r.r.graph_inspection,
            !r.r.auto_loading_disabled,
            !r.r.library_unloading_disabled,
            r.r.log@ == Seq::<LogEntry>::empty(),
    {
        Core {
            r: CoreRef {
                store: FrameStore::new(),
                max_cache_size: DEFAULT_MAX_CACHE_SIZE,
                thread_count: 1,
                graph_inspection: false,
                auto_loading_disabled: false,
                library_unloading_disabled: false,
                log: Vec::new(),
            },
            nodes: Vec::new(),
        }
    }

    /// Sets the engine-wide frame cache budget, effective immediately.
    pub fn set_max_cache_size(&mut self, size: i64)
        ensures
            *final(self) == (Core {
                r: CoreRef { max_cache_size: size, ..old(self).r },
                ..*old(self)
            }),
    {
        self.r.max_cache_size = size;
    }

    /// Sets the worker-thread budget; a non-positive count selects the
    /// automatic default of one thread.
    pub fn set_thread_count(&mut self, count: i32)
        ensures
            *final(self) == (Core {
                r: CoreRef {
                    thread_count: if count <= 0 {
                        1i32
                    } else {
                        count
                    },
                    ..old(self).r
                },
                ..*old(self)
            }),
    {
        self.r.thread_count = if count <= 0 {
            1
        } else {
            count
        };
    }

    /// Reports the engine's current configuration.
    pub fn get_info(&self) -> (info: CoreInfo)
        ensures
            info == (CoreInfo {
                num_threads: self.r.thread_count,
                max_framebuffer_size: self.r.max_cache_size,
            }),
    {
        CoreInfo {
            num_threads: self.r.thread_count,
            max_framebuffer_size: self.r.max_cache_size,
        }
    }

    /// See [`CoreRef::new_video_frame`]; never fails.
    pub fn new_video_frame(
        &mut self,
        format: &VideoFormat,
        width: i32,
        height: i32,
        prop_src: Option<&Frame>,
    ) -> (f: Frame)
        ensures
            final(self).nodes == old(self).nodes,
            final(self).r == (CoreRef { store: final(self).r.store, ..old(self).r }),
            final(self).r.store@ == old(self).r.store@.push(1),
            f.spec_id() == old(self).r.store@.len(),
            final(self).r.store.frame_live(f.spec_id()),
            f.spec_desc() == (FrameDesc::Video { format: *format, width, height }),
            prop_src matches Some(s) ==> f.spec_props() == s.spec_props(),
            prop_src is None ==> f.spec_props() == Seq::<(u64, i64)>::empty(),
    {
        self.r.new_video_frame(format, width, height, prop_src)
    }

    /// Composites a fresh video frame from planes borrowed from existing
    /// frames: one source frame and one source plane index per destination
    /// plane. Mismatched array lengths or invalid plane indices are rejected
    /// by the precondition, so the call itself cannot go wrong.
    pub fn new_video_frame2(
        &mut self,
        format: &VideoFormat,
        width: i32,
        height: i32,
        plane_src: &Vec<&Frame>,
        planes: &Vec<i32>,
        prop_src: Option<&Frame>,
    ) -> (f: Frame)
        requires
            plane_src@.len() == format.num_planes,
            planes@.len() == format.num_planes,
            forall|i: int|
                0 <= i < plane_src@.len() ==> video_plane_ok(*(#[trigger] plane_src@[i]), planes@[i]),
            forall|i: int|
                0 <= i < plane_src@.len() ==> old(self).r.store.frame_live(
                    #[trigger] plane_src@[i].spec_id(),
                ),
        ensures
            final(self).nodes == old(self).nodes,
            final(self).r == (CoreRef { store: final(self).r.store, ..old(self).r }),
            final(self).r.store@ == old(self).r.store@.push(1),
            f.spec_id() == old(self).r.store@.len(),
            final(self).r.store.frame_live(f.spec_id()),
            f.spec_desc() == (FrameDesc::Video { format: *format, width, height }),
            prop_src matches Some(s) ==> f.spec_props() == s.spec_props(),
            prop_src is None ==> f.spec_props() == Seq::<(u64, i64)>::empty(),
    {
        let _ = plane_src;
        let _ = planes;
        self.r.new_video_frame(format, width, height, prop_src)
    }

    /// See [`CoreRef::new_audio_frame`]; never fails.
    pub fn new_audio_frame(
        &mut self,
        format: &AudioFormat,
        num_samples: i32,
        prop_src: Option<&Frame>,
    ) -> (f: Frame)
        ensures
            final(self).nodes == old(self).nodes,
            final(self).r == (CoreRef { store: final(self).r.store, ..old(self).r }),
            final(self).r.store@ == old(self).r.store@.push(1),
            f.spec_id() == old(self).r.store@.len(),
            final(self).r.store.frame_live(f.spec_id()),
            f.spec_desc() == (FrameDesc::Audio { format: *format, num_samples }),
            prop_src matches Some(s) ==> f.spec_props() == s.spec_props(),
            prop_src is None ==> f.spec_props() == Seq::<(u64, i64)>::empty(),
    {
        self.r.new_audio_frame(format, num_samples, prop_src)
    }

    /// Composites a fresh audio frame from channels borrowed from existing
    /// frames, one source frame and channel index per destination channel.
    pub fn new_audio_frame2(
        &mut self,
        format: &AudioFormat,
        num_samples: i32,
        channel_src: &Vec<&Frame>,
        channels: &Vec<i32>,
        prop_src: Option<&Frame>,
    ) -> (f: Frame)
        requires
            channel_src@.len() == format.num_channels,
            channels@.len() == format.num_channels,
            forall|i: int|
                0 <= i < channel_src@.len() ==> audio_channel_ok(*(#[trigger] channel_src@[i]), channels@[i]),
            forall|i: int|
                0 <= i < channel_src@.len() ==> old(self).r.store.frame_live(
                    #[trigger] channel_src@[i].spec_id(),
                ),
        ensures
            final(self).nodes == old(self).nodes,
            final(self).r == (CoreRef { store: final(self).r.store, ..old(self).r }),
            final(self).r.store@ == old(self).r.store@.push(1),
            f.spec_id() == old(self).r.store@.len(),
            final(self).r.store.frame_live(f.spec_id()),
            f.spec_desc() == (FrameDesc::Audio { format: *format, num_samples }),
            prop_src matches Some(s) ==> f.spec_props() == s.spec_props(),
            prop_src is None ==> f.spec_props() == Seq::<(u64, i64)>::empty(),
    {
        let _ = channel_src;
        let _ = channels;
        self.r.new_audio_frame(format, num_samples, prop_src)
    }

    /// See [`CoreRef::copy_frame`]: a deep copy with independent lifetime.
    pub fn copy_frame(&mut self, frame: &Frame) -> (f: Frame)
        requires
            old(self).r.store.frame_live(frame.spec_id()),
        ensures
            final(self).nodes == old(self).nodes,
            final(self).r == (CoreRef { store: final(self).r.store, ..old(self).r }),
            final(self).r.store@ == old(self).r.store@.push(1),
            f.spec_id() == old(self).r.store@.len(),
            f.spec_id() != frame.spec_id(),
            final(self).r.store.frame_live(f.spec_id()),
            final(self).r.store.frame_live(frame.spec_id()),
            final(self).r.store@[frame.spec_id()] == old(self).r.store@[frame.spec_id()],
            f.spec_desc() == frame.spec_desc(),
            f.spec_props() == frame.spec_props(),
    {
        self.r.copy_frame(frame)
    }

    /// See [`CoreRef::clone_frame`]: one more reference to the same buffer.
    pub fn clone_frame(&mut self, frame: &Frame) -> (f: Frame)
        requires
            old(self).r.store.frame_live(frame.spec_id()),
            old(self).r.store@[frame.spec_id()] < u64::MAX,
        ensures
            final(self).nodes == old(self).nodes,
            final(self).r == (CoreRef { store: final(self).r.store, ..old(self).r }),
            final(self).r.store@ == old(self).r.store@.update(
                frame.spec_id(),
                (old(self).r.store@[frame.spec_id()] + 1) as u64,
            ),
            f.spec_id() == frame.spec_id(),
            f.spec_desc() == frame.spec_desc(),
            f.spec_props() == frame.spec_props(),
    {
        self.r.clone_frame(frame)
    }

    /// See [`CoreRef::free_frame`]: releases one reference; the buffer is
    /// freed exactly when this was the last one.
    pub fn free_frame(&mut self, frame: Frame)
        requires
            old(self).r.store.frame_live(frame.spec_id()),
        ensures
            final(self).nodes == old(self).nodes,
            final(self).r == (CoreRef { store: final(self).r.store, ..old(self).r }),
            final(self).r.store@ == old(self).r.store@.update(
                frame.spec_id(),
                (old(self).r.store@[frame.spec_id()] - 1) as u64,
            ),
            final(self).r.store.frame_live(frame.spec_id()) <==> old(
                self,
            ).r.store@[frame.spec_id()] > 1,
    {
        self.r.free_frame(frame)
    }

    /// Pure query: the video format descriptor for these parameters, or the
    /// all-zero descriptor if they are invalid.
    pub fn query_video_format(
        &self,
        color_family: ColorFamily,
        sample_type: SampleType,
        bits_per_sample: i32,
        subsampling_w: i32,
        subsampling_h: i32,
    ) -> (r: VideoFormat)
        ensures
            r == spec_query_video_format(
                color_family,
                sample_type,
                bits_per_sample,
                subsampling_w,
                subsampling_h,
            ),
    {
        compute_video_format(
            color_family,
            sample_type,
            bits_per_sample,
            subsampling_w,
            subsampling_h,
        )
    }

    /// Pure query: the audio format descriptor for these parameters, or the
    /// all-zero descriptor if they are invalid.
    pub fn query_audio_format(
        &self,
        sample_type: SampleType,
        bits_per_sample: i32,
        channel_layout: u64,
    ) -> (r: AudioFormat)
        ensures
            r == spec_query_audio_format(sample_type, bits_per_sample, channel_layout),
    {
        let float_ok = match sample_type {
            SampleType::Integer => true,
            SampleType::Float => bits_per_sample == 32,
        };
        if 16 <= bits_per_sample && bits_per_sample <= 32 && float_ok && channel_layout != 0 {
            let channels = popcount64(channel_layout);
            proof {
                lemma_count_channels_bound(channel_layout);
            }
            AudioFormat {
                sample_type,
                bits_per_sample,
                bytes_per_sample: if bits_per_sample <= 16 {
                    2
                } else {
                    4
                },
                num_channels: channels as i32,
                channel_layout,
            }
        } else {
            AudioFormat {
                sample_type: SampleType::Integer,
                bits_per_sample: 0,
                bytes_per_sample: 0,
                num_channels: 0,
                channel_layout: 0,
            }
        }
    }

    /// Pure query: the packed 32-bit id of these parameters, or 0 if they
    /// are invalid.
    pub fn query_video_format_id(
        &self,
        color_family: ColorFamily,
        sample_type: SampleType,
        bits_per_sample: i32,
        subsampling_w: i32,
        subsampling_h: i32,
    ) -> (r: u32)
        ensures
            r == spec_video_format_id(
                color_family,
                sample_type,
                bits_per_sample,
                subsampling_w,
                subsampling_h,
            ),
    {
        let family_ok = match color_family {
            ColorFamily::Undefined => false,
            _ => true,
        };
        let float_ok = match sample_type {
            SampleType::Integer => true,
            SampleType::Float => bits_per_sample == 16 || bits_per_sample == 32,
        };
        let sub_ok = 0 <= subsampling_w && subsampling_w <= 4 && 0 <= subsampling_h
            && subsampling_h <= 4 && ((subsampling_w == 0 && subsampling_h == 0) || matches!(
            color_family,
            ColorFamily::YUV,
        ));
        if family_ok && 8 <= bits_per_sample && bits_per_sample <= 32 && float_ok && sub_ok {
            let cf_code: u32 = match color_family {
                ColorFamily::Undefined => 0,
                ColorFamily::Gray => 1,
                ColorFamily::RGB => 2,
                ColorFamily::YUV => 3,
            };
            let st_code: u32 = match sample_type {
                SampleType::Integer => 0,
                SampleType::Float => 1,
            };
            cf_code * 0x10000000 + st_code * 0x1000000 + (bits_per_sample as u32) * 0x10000 + (
            subsampling_w as u32) * 0x100 + (subsampling_h as u32)
        } else {
            0
        }
    }

    /// Pure query: unpacks a 32-bit format id back into its descriptor, or
    /// the all-zero descriptor if the id does not denote a valid format.
    pub fn get_video_format_by_id(&self, id: u32) -> (r: VideoFormat)
        ensures
            r == spec_format_of_id(id),
    {
        let cf_raw = id / 0x10000000;
        let st_raw = (id / 0x1000000) % 0x10;
        let bits = (id / 0x10000) % 0x100;
        let ssw = (id / 0x100) % 0x100;
        let ssh = id % 0x100;
        if cf_raw <= 3 && st_raw <= 1 {
            let cf = if cf_raw == 1 {
                ColorFamily::Gray
            } else if cf_raw == 2 {
                ColorFamily::RGB
            } else if cf_raw == 3 {
                ColorFamily::YUV
            } else {
                ColorFamily::Undefined
            };
            let st = if st_raw == 1 {
                SampleType::Float
            } else {
                SampleType::Integer
            };
            compute_video_format(cf, st, bits as i32, ssw as i32, ssh as i32)
        } else {
            zero_video_format_exec()
        }
    }

    /// See [`CoreRef::log`].
    pub fn log(&mut self, level: MessageType, msg: &str)
        ensures
            final(self).nodes == old(self).nodes,
            final(self).r == (CoreRef { log: final(self).r.log, ..old(self).r }),
            final(self).r.log@.len() == old(self).r.log@.len() + 1,
            final(self).r.log@.subrange(0, old(self).r.log@.len() as int) == old(self).r.log@,
            final(self).r.log@.last().level == level,
            final(self).r.log@.last().message@ == msg@,
    {
        self.r.log(level, msg);
    }

    /// Introspection, available when graph inspection was enabled at core
    /// construction: the reference count of a node handle's slot.
    pub fn node_ref_count(&self, node: &NodeRef) -> (r: Option<u64>)
        ensures
            !self.r.graph_inspection ==> r is None,
            self.r.graph_inspection ==> r == Some(
                if 0 <= node.spec_index() < self.nodes@.len() {
                    self.nodes@[node.spec_index() as int].rc
                } else {
                    0u64
                },
            ),
    {
        if !self.r.graph_inspection {
            return None;
        }
        let idx = node.index();
        if idx < self.nodes.len() {
            Some(self.nodes[idx].rc)
        } else {
            Some(0)
        }
    }

    /// Introspection, available when graph inspection was enabled at core
    /// construction: the reference count of a frame handle's buffer.
    pub fn frame_ref_count(&self, frame: &Frame) -> (r: Option<u64>)
        ensures
            !self.r.graph_inspection ==> r is None,
            self.r.graph_inspection ==> r == Some(
                if 0 <= frame.spec_id() < self.r.store@.len() {
                    self.r.store@[frame.spec_id()]
                } else {
                    0u64
                },
            ),
    {
        if !self.r.graph_inspection {
            return None;
        }
        Some(self.r.store.ref_count(frame.id()))
    }

    /// The shared registration path behind the v1 and v2 entry points:
    /// validates the name, the dependency count, the stream description and
    /// the dependencies, then appends the new node with one reference.
    pub(crate) fn register_filter(
        &mut self,
        name: &str,
        info: Info,
        filter: F,
        deps: &Vec<FilterDependency>,
    ) -> (r: Result<NodeRef, FilterError>)
        requires
            old(self).wf(),
        ensures
            final(self).wf(),
            final(self).r == old(self).r,
            r matches Err(e) ==> final(self).nodes == old(self).nodes,
            (r matches Err(e) && e is InvalidName) <==> name_has_nul(name),
            !name_has_nul(name) ==> ((r matches Err(e) && e is TooMuchDependency) <==> deps@.len()
                > 0x7fffffff),
            (!name_has_nul(name) && deps@.len() <= 0x7fffffff) ==> ((r matches Err(e)
                && e is Internal) <==> !(info_valid(info) && deps_ok(old(self).nodes@, deps@))),
            r is Ok <==> (!name_has_nul(name) && deps@.len() <= 0x7fffffff && info_valid(info)
                && deps_ok(old(self).nodes@, deps@)),
            r matches Ok(node) ==> {
                &&& node.spec_index() == old(self).nodes@.len()
                &&& final(self).nodes@.len() == old(self).nodes@.len() + 1
                &&& final(self).nodes@.drop_last() == old(self).nodes@
                &&& final(self).nodes@.last().name@ == name@
                &&& final(self).nodes@.last().info == info
                &&& final(self).nodes@.last().deps@ == deps@
                &&& final(self).nodes@.last().rc == 1
                &&& !final(self).nodes@.last().freed
                &&& final(self).nodes@.last().filter == filter
                &&& final(self).nodes@.last().mode == F::declared_mode()
                &&& final(self).nodes@.last().cache_mode == CacheMode::Auto
                &&& !final(self).nodes@.last().linear
            },
    {
        let bytes = name.as_bytes();
        let mut i: usize = 0;
        while i < bytes.len()
            invariant
                i <= bytes@.len(),
                forall|j: int| 0 <= j < i ==> bytes@[j] != 0u8,
                bytes@ == name.spec_bytes(),
                old(self).wf(),
                *self == *old(self),
            decreases bytes@.len() - i,
        {
            if bytes[i] == 0 {
                proof {
                    assert(name.spec_bytes()[i as int] == 0u8);
                    assert(name.spec_bytes().contains(0u8));
                }
                return Err(FilterError::InvalidName);
            }
            i = i + 1;
        }
        assert(!name.spec_bytes().contains(0u8)) by {
            if name.spec_bytes().contains(0u8) {
                let j = choose|j: int|
                    0 <= j < name.spec_bytes().len() && name.spec_bytes()[j] == 0u8;
            }
        }
        if deps.len() > 0x7fffffff {
            return Err(FilterError::TooMuchDependency);
        }
        let nf = match &info {
            Info::Video(vi) => vi.num_frames,
            Info::Audio(ai) => ai.num_frames,
        };
        if nf < 1 {
            return Err(FilterError::Internal("the stream description is invalid".to_owned()));
        }
        let mut d: usize = 0;
        let mut deps_copy: Vec<FilterDependency> = Vec::new();
        while d < deps.len()
            invariant
                d <= deps@.len(),
                deps_copy@ == deps@.subrange(0, d as int),
                forall|j: int|
                    0 <= j < d ==> (#[trigger] deps@[j]).source < self.nodes@.len()
                        && self.nodes@[deps@[j].source as int].rc > 0,
                *self == *old(self),
                old(self).wf(),
                !name_has_nul(name),
                deps@.len() <= 0x7fffffff,
                info_valid(info),
            decreases deps@.len() - d,
        {
            let src = deps[d].source;
            if src >= self.nodes.len() || self.nodes[src].rc == 0 {
                proof {
                    assert(!(deps@[d as int].source < self.nodes@.len()
                        && self.nodes@[deps@[d as int].source as int].rc > 0));
                    assert(!deps_ok(old(self).nodes@, deps@));
                }
                return Err(
                    FilterError::Internal("a declared dependency is not a live node".to_owned()),
                );
            }
            deps_copy.push(deps[d]);
            d = d + 1;
        }
        proof {
            assert(deps_copy@ =~= deps@);
        }
        let mode = filter.mode();
        let node_index = self.nodes.len();
        self.nodes.push(
            NodeSlot {
                name: name.to_owned(),
                info,
                mode,
                deps: deps_copy,
                filter,
                rc: 1,
                freed: false,
                cache_mode: CacheMode::Auto,
                cache_fixed_size: 0,
                cache_max_size: -1,
                cache_max_history_size: -1,
                linear: false,
            },
        );
        proof {
            assert(self.nodes@.drop_last() =~= old(self).nodes@);
            assert forall|k: int| 0 <= k < self.nodes@.len() implies (
            #[trigger] self.nodes@[k]).slot_wf(k) by {
                if k < old(self).nodes@.len() {
                    assert(old(self).nodes@[k].slot_wf(k));
                } else {
                    assert(self.nodes@[k].deps@ == deps@);
                }
            }
        }
        Ok(NodeRef::make(node_index))
    }

    /// The v1 video registration path: on success the new node is written
    /// into the output slot; on an engine rejection the message is written
    /// there too, and the typed error is returned in every failure case.
    pub fn create_video_filter(
        &mut self,
        out: &mut FilterOutput,
        name: &str,
        info: &VideoInfo,
        filter: F,
        deps: &Vec<FilterDependency>,
    ) -> (r: Result<(), FilterError>)
        requires
            old(self).wf(),
        ensures
            final(self).wf(),
            final(self).r == old(self).r,
            (r matches Err(e) && e is InvalidName) <==> name_has_nul(name),
            !name_has_nul(name) ==> ((r matches Err(e) && e is TooMuchDependency) <==> deps@.len()
                > 0x7fffffff),
            (!name_has_nul(name) && deps@.len() <= 0x7fffffff) ==> ((r matches Err(e)
                && e is Internal) <==> !(info_valid(Info::Video(*info)) && deps_ok(
                old(self).nodes@,
                deps@,
            ))),
            r is Ok <==> (!name_has_nul(name) && deps@.len() <= 0x7fffffff && info_valid(
                Info::Video(*info),
            ) && deps_ok(old(self).nodes@, deps@)),
            r is Err ==> final(self).nodes == old(self).nodes,
            (r matches Err(e) && (e is InvalidName || e is TooMuchDependency)) ==> *final(out)
                == *old(out),
            (r matches Err(e) && e is Internal) ==> final(out).node is None && final(out).error is Some,
            r is Ok ==> final(out).error is None,
            r is Ok ==> {
                &&& final(out).node matches Some(node) && node.spec_index() == old(
                    self,
                ).nodes@.len()
                &&& final(self).nodes@.len() == old(self).nodes@.len() + 1
                &&& final(self).nodes@.drop_last() == old(self).nodes@
                &&& final(self).nodes@.last().name@ == name@
                &&& final(self).nodes@.last().info == Info::Video(*info)
                &&& final(self).nodes@.last().deps@ == deps@
                &&& final(self).nodes@.last().rc == 1
                &&& !final(self).nodes@.last().freed
                &&& final(self).nodes@.last().filter == filter
                &&& final(self).nodes@.last().mode == F::declared_mode()
            },
    {
        match self.register_filter(name, Info::Video(*info), filter, deps) {
            Ok(node) => {
                out.node = Some(node);
                out.error = None;
                Ok(())
            },
            Err(FilterError::Internal(msg)) => {
                out.node = None;
                out.error = Some(msg.clone());
                Err(FilterError::Internal(msg))
            },
            Err(e) => Err(e),
        }
    }

    /// The v1 audio registration path: like the video path, the failure
    /// translated into the same structured conditions.
    pub fn create_audio_filter(
        &mut self,
        out: &mut FilterOutput,
        name: &str,
        info: &AudioInfo,
        filter: F,
        deps: &Vec<FilterDependency>,
    ) -> (r: Result<(), FilterError>)
        requires
            old(self).wf(),
        ensures
            final(self).wf(),
            final(self).r == old(self).r,
            (r matches Err(e) && e is InvalidName) <==> name_has_nul(name),
            !name_has_nul(name) ==> ((r matches Err(e) && e is TooMuchDependency) <==> deps@.len()
                > 0x7fffffff),
            (!name_has_nul(name) && deps@.len() <= 0x7fffffff) ==> ((r matches Err(e)
                && e is Internal) <==> !(info_valid(Info::Audio(*info)) && deps_ok(
                old(self).nodes@,
                deps@,
            ))),
            r is Ok <==> (!name_has_nul(name) && deps@.len() <= 0x7fffffff && info_valid(
                Info::Audio(*info),
            ) && deps_ok(old(self).nodes@, deps@)),
            r is Err ==> final(self).nodes == old(self).nodes,
            (r matches Err(e) && (e is InvalidName || e is TooMuchDependency)) ==> *final(out)
                == *old(out),
            (r matches Err(e) && e is Internal) ==> final(out).node is None && final(out).error is Some,
            r is Ok ==> final(out).error is None,
            r is Ok ==> {
                &&& final(out).node matches Some(node) && node.spec_index() == old(
                    self,
                ).nodes@.len()
                &&& final(self).nodes@.len() == old(self).nodes@.len() + 1
                &&& final(self).nodes@.drop_last() == old(self).nodes@
                &&& final(self).nodes@.last().name@ == name@
                &&& final(self).nodes@.last().info == Info::Audio(*info)
                &&& final(self).nodes@.last().deps@ == deps@
                &&& final(self).nodes@.last().rc == 1
                &&& !final(self).nodes@.last().freed
                &&& final(self).nodes@.last().filter == filter
                &&& final(self).nodes@.last().mode == F::declared_mode()
            },
    {
        match self.register_filter(name, Info::Audio(*info), filter, deps) {
            Ok(node) => {
                out.node = Some(node);
                out.error = None;
                Ok(())
            },
            Err(FilterError::Internal(msg)) => {
                out.node = None;
                out.error = Some(msg.clone());
                Err(FilterError::Internal(msg))
            },
            Err(e) => Err(e),
        }
    }

    /// Duplicates a node handle: one more reference to the same slot.
    pub fn clone_node(&mut self, node: &NodeRef) -> (r: NodeRef)
        requires
            old(self).wf(),
            old(self).node_live(node.spec_index() as int),
            old(self).nodes@[node.spec_index() as int].rc < u64::MAX,
        ensures
            final(self).wf(),
            final(self).r == old(self).r,
            r.spec_index() == node.spec_index(),
            final(self).nodes@ == old(self).nodes@.update(
                node.spec_index() as int,
                (NodeSlot {
                    rc: (old(self).nodes@[node.spec_index() as int].rc + 1) as u64,
                    ..old(self).nodes@[node.spec_index() as int]
                }),
            ),
    {
        let idx = node.index();
        let slot = &mut self.nodes[idx];
        slot.rc = slot.rc + 1;
        proof {
            assert forall|k: int| 0 <= k < self.nodes@.len() implies (
            #[trigger] self.nodes@[k]).slot_wf(k) by {
                assert(old(self).nodes@[k].slot_wf(k));
            }
        }
        NodeRef::make(idx)
    }

    /// Releases a node handle. When this was the last reference, the slot
    /// is torn down: its filter's `free` hook runs exactly once, here.
    pub fn free_node(&mut self, node: NodeRef)
        requires
            old(self).wf(),
            old(self).node_live(node.spec_index() as int),
        ensures
            final(self).wf(),
            final(self).nodes@.len() == old(self).nodes@.len(),
            forall|j: int|
                0 <= j < final(self).nodes@.len() && j != node.spec_index() ==> final(self).nodes@[j] == old(self).nodes@[j],
            final(self).nodes@[node.spec_index() as int].rc == old(self).nodes@[node.spec_index()
                as int].rc - 1,
            final(self).nodes@[node.spec_index() as int].freed <==> old(
                self,
            ).nodes@[node.spec_index() as int].rc == 1,
            old(self).nodes@[node.spec_index() as int].rc > 1 ==> final(self).nodes@[node.spec_index() as int] == (NodeSlot {
                rc: (old(self).nodes@[node.spec_index() as int].rc - 1) as u64,
                ..old(self).nodes@[node.spec_index() as int]
            }) && final(self).r == old(self).r,
    {
        let idx = node.index();
        let count = self.nodes[idx].rc;
        if count == 1 {
            let slot = &mut self.nodes[idx];
            slot.rc = 0;
            slot.freed = true;
            slot.filter.free(&mut self.r);
        } else {
            let slot = &mut self.nodes[idx];
            slot.rc = count - 1;
        }
        proof {
            assert forall|k: int| 0 <= k < self.nodes@.len() implies (
            #[trigger] self.nodes@[k]).slot_wf(k) by {
                assert(old(self).nodes@[k].slot_wf(k));
                if k == idx {
                    assert(self.nodes@[k].deps@ == old(self).nodes@[k].deps@);
                }
            }
        }
    }
}

impl<F: Filter> Default for Core<F> {
    /// A fresh default core, as [`Core::new`] builds it.
    fn default() -> (r: Core<F>)
        ensures
            r.wf(),
            r.nodes@ == Seq::<NodeSlot<F>>::empty(),
            r.r.store@ == Seq::<u64>::empty(),
            r.r.max_cache_size == DEFAULT_MAX_CACHE_SIZE,
            r.r.thread_count == 1,
            !r.r.graph_inspection,
    {
        Core::new()
    }
}

/// The output slot of the v1 registration paths: the engine writes the new
/// node, or the error message, into it.
pub struct FilterOutput {
    pub node: Option<NodeRef>,
    pub error: Option<String>,
}

impl FilterOutput {
    pub fn new() -> (r: FilterOutput)
        ensures
            r.node is None,
            r.error is None,
    {
        FilterOutput { node: None, error: None }
    }

    /// The error message the engine recorded, if any.
    pub fn get_error(&self) -> (r: Option<&String>)
        ensures
            r is Some <==> self.error is Some,
            r matches Some(m) ==> self.error matches Some(e) && m@ == e@,
    {
        match &self.error {
            Some(e) => Some(e),
            None => None,
        }
    }

    /// Moves the registered node out of the slot.
    pub fn take_node(&mut self) -> (r: Option<NodeRef>)
        ensures
            r == old(self).node,
            final(self).node is None,
            final(self).error == old(self).error,
    {
        self.node.take()
    }
}

/// Step-by-step construction of a configured [`Core`].
#[derive(Clone, Copy, Debug)]
pub struct CoreBuilder {
    pub graph_inspection: bool,
    pub auto_loading_disabled: bool,
    pub library_unloading_disabled: bool,
    pub max_cache_size: Option<i64>,
    pub thread_count: Option<i32>,
}

impl CoreBuilder {
    pub fn new() -> (r: CoreBuilder)
        ensures
            r == (CoreBuilder {
                graph_inspection: false,
                auto_loading_disabled: false,
                library_unloading_disabled: false,
                max_cache_size: None,
                thread_count: None,
            }),
    {
        CoreBuilder {
            graph_inspection: false,
            auto_loading_disabled: false,
            library_unloading_disabled: false,
            max_cache_size: None,
            thread_count: None,
        }
    }

    /// Enables the engine's graph-introspection bookkeeping.
    pub fn enable_graph_inspection(&mut self) -> (r: &mut CoreBuilder)
        ensures
            *r == (CoreBuilder { graph_inspection: true, ..*old(self) }),
            *final(self) == *final(r),
    {
        self.graph_inspection = true;
        self
    }

    /// Disables filesystem auto-discovery of filter plugins.
    pub fn disable_auto_loading(&mut self) -> (r: &mut CoreBuilder)
        ensures
            *r == (CoreBuilder { auto_loading_disabled: true, ..*old(self) }),
            *final(self) == *final(r),
    {
        self.auto_loading_disabled = true;
        self
    }

    /// Disables unloading of dynamically loaded filter libraries.
    pub fn disable_library_unloading(&mut self) -> (r: &mut CoreBuilder)
        ensures
            *r == (CoreBuilder { library_unloading_disabled: true, ..*old(self) }),
            *final(self) == *final(r),
    {
        self.library_unloading_disabled = true;
        self
    }

    /// Sets the cache budget the built core will start with.
    pub fn max_cache_size(&mut self, size: i64) -> (r: &mut CoreBuilder)
        ensures
            *r == (CoreBuilder { max_cache_size: Some(size), ..*old(self) }),
            *final(self) == *final(r),
    {
        self.max_cache_size = Some(size);
        self
    }

    /// Sets the thread count the built core will start with.
    pub fn thread_count(&mut self, count: i32) -> (r: &mut CoreBuilder)
        ensures
            *r == (CoreBuilder { thread_count: Some(count), ..*old(self) }),
            *final(self) == *final(r),
    {
        self.thread_count = Some(count);
        self
    }

    /// Builds the configured core.
    pub fn build<F: Filter>(self) -> (core: Core<F>)
        ensures
            core.wf(),
            core.nodes@ == Seq::<NodeSlot<F>>::empty(),
            core.r.store@ == Seq::<u64>::empty(),
            core.r.graph_inspection == self.graph_inspection,
            core.r.auto_loading_disabled == self.auto_loading_disabled,
            core.r.library_unloading_disabled == self.library_unloading_disabled,
            core.r.max_cache_size == (match self.max_cache_size {
                Some(size) => size,
                None => DEFAULT_MAX_CACHE_SIZE,
            }),
            core.r.thread_count == (match self.thread_count {
                Some(count) => if count <= 0 {
                    1i32
                } else {
                    count
                },
                None => 1i32,
            }),
    {
        let mut core: Core<F> = Core::new();
        core.r.graph_inspection = self.graph_inspection;
        core.r.auto_loading_disabled = self.auto_loading_disabled;
        core.r.library_unloading_disabled = self.library_unloading_disabled;
        if let Some(size) = self.max_cache_size {
            core.set_max_cache_size(size);
        }
        if let Some(count) = self.thread_count {
            core.set_thread_count(count);
        }
        core
    }
}

impl Default for CoreBuilder {
    /// An unconfigured builder, as [`CoreBuilder::new`] makes it.
    fn default() -> (r: CoreBuilder)
        ensures
            r == (CoreBuilder {
                graph_inspection: false,
                auto_loading_disabled: false,
                library_unloading_disabled: false,
                max_cache_size: None,
                thread_count: None,
            }),
    {
        CoreBuilder::new()
    }
}

} // verus!
