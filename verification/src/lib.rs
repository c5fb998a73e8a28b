//! Device connect session orchestration for a remotely controllable audio
//! playback endpoint.
//!
//! The library translates user-facing device settings into the validated
//! configuration the remote-control engine expects, assembles the audio
//! pipeline handles around librespot's software mixer without acquiring OS
//! audio resources, and models the lifecycle of the long-running connect
//! session. The engine itself, the audio backends and all network transport
//! are external collaborators.

pub mod lifecycle;
pub mod pipeline;
pub mod settings;
pub mod volume;
