//! # Backends
//!
//! The decisions of the various audio backends, one submodule per backend, on the values that
//! the driver calls read.
pub mod wasapi;
pub mod null;
pub mod pipewire;
pub mod coreaudio;
pub mod asio;
pub mod alsa;
