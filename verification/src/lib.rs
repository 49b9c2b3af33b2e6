//! Interflow: a unified, opinionated interface over platform audio APIs.
//!
//! This crate holds the verified core of the library: channel maps (bit sets), device types,
//! audio buffers, sample types, and the decisions the platform backends make on the values
//! their driver calls return.
use vstd::prelude::*;

pub mod audio_buffer;
pub mod backends;
pub mod channel_map;
pub mod device;
pub mod duplex;
pub mod sample;
pub mod stream;
