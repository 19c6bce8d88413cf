//! Streams the frames of an externally decoded video into one GPU texture.
//!
//! The library owns the decisions of the bridge: which texture to ask the
//! resource table for, how the video element is configured, the single binding
//! between the frame source and the texture identity, and the copy command that
//! each render tick issues. The host performs the effects (allocating, resolving,
//! submitting to the GPU queue, driving the media element) and hands plain values
//! back.

pub mod geometry;
pub mod texture;
pub mod source;
pub mod binding;
pub mod sync;
pub mod queue;
pub mod schedule;
