//! A pull-based media-processing graph runtime.
//!
//! A [`engine::Core`] owns a directed graph of filter nodes. Frames of video or
//! audio are produced lazily: a consumer asks a node for frame `n`, the engine
//! invokes the node's filter with reason `Initial`, the filter may request
//! upstream frames through a [`node::FrameContext`], and the engine re-invokes
//! the filter with `AllFramesReady` once every requested frame is resolved.
//! Frames and nodes are reference-counted; format descriptors are plain values
//! queried through pure functions.

pub mod engine;
pub mod format;
pub mod frame;
pub mod node;
pub mod protocol;
