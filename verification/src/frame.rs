//! Frames and the reference-count ledger that tracks their buffers.
//!
//! A [`Frame`] is an immutable handle to one decoded unit of video or audio:
//! it carries its stream description and its copied property list, plus the
//! id of the underlying buffer. Buffers are reference-counted in a
//! [`FrameStore`]: allocation starts a buffer at one reference, cloning a
//! handle adds one, releasing a handle removes one, and the buffer is freed
//! exactly when the count reaches zero.

use vstd::prelude::*;
use crate::format::{AudioFormat, VideoFormat};

verus! {

#[derive(Clone, Copy, PartialEq, Eq, Structural, Debug, Hash)]
pub enum MediaType {
    Video,
    Audio,
}

/// The immutable stream description a frame carries.
#[derive(Clone, Copy, PartialEq, Eq, Structural, Debug)]
pub enum FrameDesc {
    Video { format: VideoFormat, width: i32, height: i32 },
    Audio { format: AudioFormat, num_samples: i32 },
}

impl FrameDesc {
    pub open spec fn media_type(self) -> MediaType {
        match self {
            FrameDesc::Video { .. } => MediaType::Video,
            FrameDesc::Audio { .. } => MediaType::Audio,
        }
    }
}

/// A frame's property list, copied (never shared) at construction.
#[derive(Debug)]
pub struct Props {
    entries: Vec<(u64, i64)>,
}

impl Props {
    pub closed spec fn view(self) -> Seq<(u64, i64)> {
        self.entries@
    }

    pub fn empty() -> (r: Props)
        ensures
            r@ == Seq::<(u64, i64)>::empty(),
    {
        Props { entries: Vec::new() }
    }

    /// An independent copy with the same entries.
    pub fn duplicate(&self) -> (r: Props)
        ensures
            r@ == self@,
    {
        let mut entries: Vec<(u64, i64)> = Vec::new();
        let mut i: usize = 0;
        while i < self.entries.len()
            invariant
                i <= self.entries.len(),
                entries@ == self.entries@.subrange(0, i as int),
            decreases self.entries.len() - i,
        {
            entries.push(self.entries[i]);
            i = i + 1;
        }
        proof {
            assert(entries@ =~= self.entries@);
        }
        Props { entries }
    }

    pub fn len(&self) -> (r: usize)
        ensures
            r == self@.len(),
    {
        self.entries.len()
    }
}

/// An immutable, reference-counted handle to one decoded frame.
///
/// Handles are duplicated and released only through the owning core, which
/// keeps the buffer's reference count; the metadata itself never changes.
#[derive(Debug)]
pub struct Frame {
    id: usize,
    desc: FrameDesc,
    props: Props,
}

impl Frame {
    pub closed spec fn spec_id(self) -> int {
        self.id as int
    }

    pub closed spec fn spec_desc(self) -> FrameDesc {
        self.desc
    }

    pub closed spec fn spec_props(self) -> Seq<(u64, i64)> {
        self.props@
    }

    pub(crate) fn make(id: usize, desc: FrameDesc, props: Props) -> (r: Frame)
        ensures
            r.spec_id() == id,
            r.spec_desc() == desc,
            r.spec_props() == props@,
    {
        Frame { id, desc, props }
    }

    /// The id of the underlying buffer, shared by all clones of a handle.
    pub fn id(&self) -> (r: usize)
        ensures
            r == self.spec_id(),
    {
        self.id
    }

    pub fn media_type(&self) -> (r: MediaType)
        ensures
            r == self.spec_desc().media_type(),
    {
        match self.desc {
            FrameDesc::Video { .. } => MediaType::Video,
            FrameDesc::Audio { .. } => MediaType::Audio,
        }
    }

    pub fn desc(&self) -> (r: FrameDesc)
        ensures
            r == self.spec_desc(),
    {
        self.desc
    }

    pub fn prop_count(&self) -> (r: usize)
        ensures
            r == self.spec_props().len(),
    {
        self.props.len()
    }

    /// A property list equal to this frame's, as an independent copy.
    pub fn copy_props(&self) -> (r: Props)
        ensures
            r@ == self.spec_props(),
    {
        self.props.duplicate()
    }
}

/// The reference-count ledger of frame buffers. Index `i` holds the number
/// of live handles to buffer `i`; a buffer with count zero is freed.
pub struct FrameStore {
    rc: Vec<u64>,
}

impl FrameStore {
    pub closed spec fn view(self) -> Seq<u64> {
        self.rc@
    }

    /// Buffer `id` exists and still has at least one reference.
    pub open spec fn frame_live(self, id: int) -> bool {
        0 <= id < self@.len() && self@[id] > 0
    }

    pub fn new() -> (r: FrameStore)
        ensures
            r@ == Seq::<u64>::empty(),
    {
        FrameStore { rc: Vec::new() }
    }

    pub fn len(&self) -> (r: usize)
        ensures
            r == self@.len(),
    {
        self.rc.len()
    }

    /// Allocates a fresh buffer with one reference and returns its id.
    pub fn allocate(&mut self) -> (id: usize)
        ensures
            id == old(self)@.len(),
            final(self)@ == old(self)@.push(1),
            final(self).frame_live(id as int),
    {
        let id = self.rc.len();
        self.rc.push(1);
        id
    }

    /// Adds one reference to a live buffer.
    pub fn add_ref(&mut self, id: usize)
        requires
            old(self).frame_live(id as int),
            old(self)@[id as int] < u64::MAX,
        ensures
            final(self)@ == old(self)@.update(id as int, (old(self)@[id as int] + 1) as u64),
    {
        let count = self.rc[id];
        self.rc.set(id, count + 1);
    }

    /// Removes one reference from a live buffer; the buffer is freed (its
    /// count reaches zero) exactly when this was the last reference.
    pub fn release(&mut self, id: usize)
        requires
            old(self).frame_live(id as int),
        ensures
            final(self)@ == old(self)@.update(id as int, (old(self)@[id as int] - 1) as u64),
            final(self).frame_live(id as int) <==> old(self)@[id as int] > 1,
    {
        let count = self.rc[id];
        self.rc.set(id, count - 1);
    }

    pub fn is_live(&self, id: usize) -> (r: bool)
        ensures
            r == self.frame_live(id as int),
    {
        id < self.rc.len() && self.rc[id] > 0
    }

    /// The reference count of buffer `id`, zero for ids never allocated.
    pub fn ref_count(&self, id: usize) -> (r: u64)
        ensures
            r == if 0 <= id < self@.len() {
                self@[id as int]
            } else {
                0
            },
    {
        if id < self.rc.len() {
            self.rc[id]
        } else {
            0
        }
    }
}

/// Law: releasing one reference frees the buffer exactly when it was the
/// last one; a buffer that still had other references stays live.
pub proof fn lemma_release_frees_only_last(s: FrameStore, t: FrameStore, id: int)
    requires
        s.frame_live(id),
        t@ == s@.update(id, (s@[id] - 1) as u64),
    ensures
        t.frame_live(id) <==> s@[id] > 1,
{
}

/// Law: releasing a reference to one buffer never frees a different live
/// buffer: independent lifetimes stay independent.
pub proof fn lemma_release_keeps_others_live(s: FrameStore, t: FrameStore, id: int, other: int)
    requires
        s.frame_live(id),
        s.frame_live(other),
        other != id,
        t@ == s@.update(id, (s@[id] - 1) as u64),
    ensures
        t.frame_live(other),
{
}

/// The ledger after `m` consecutive releases of buffer `id`.
pub open spec fn release_n(s: Seq<u64>, id: int, m: nat) -> Seq<u64>
    decreases m,
{
    if m == 0 {
        s
    } else {
        let prev = release_n(s, id, (m - 1) as nat);
        prev.update(id, (prev[id] - 1) as u64)
    }
}

/// Law: a buffer holding `c` references is freed by its `c`-th release and
/// by no earlier one. With a fresh buffer (one reference) cloned `n` times,
/// `c` is `n + 1`: dropping all `n + 1` handles frees the buffer exactly at
/// the last drop.
pub proof fn lemma_freed_exactly_at_last_release(s: Seq<u64>, id: int, m: nat)
    requires
        0 <= id < s.len(),
        m <= s[id],
    ensures
        release_n(s, id, m).len() == s.len(),
        release_n(s, id, m)[id] == s[id] - m,
        forall|j: int| 0 <= j < s.len() && j != id ==> release_n(s, id, m)[j] == s[j],
        m < s[id] ==> release_n(s, id, m)[id] > 0,
        m == s[id] ==> release_n(s, id, m)[id] == 0,
    decreases m,
{
    if m > 0 {
        lemma_freed_exactly_at_last_release(s, id, (m - 1) as nat);
    }
}

} // verus!
