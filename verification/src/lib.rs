//! Core logic of a game launcher with a native extension layer.
//!
//! The launcher side models game versions, their platform-specific
//! distributions and the command needed to start them. The native side
//! provides a type-checked opaque-handle registry, the integer core of
//! permutation-table gradient noise, decoded-audio assembly, and the
//! state machines of an identity-routed messaging layer.

pub mod cmd;
pub mod game;
pub mod net;
pub mod noise;
pub mod handle;
pub mod noise_3d;
pub mod registry;
pub mod vorbis;
pub mod zmq;
