//! A single cross-platform "now playing" session: an application sets track
//! metadata and playback state once, and each backend turns that state into
//! what its operating system's media surface expects.
//!
//! The library holds the state model, the per-platform rules and the
//! controller state machines. It performs no native call itself: every
//! operation takes what the host observed on the native surface as plain
//! values and hands back, as plain values, what the host has to carry out.
//!
//! Times are whole nanoseconds and playback rates are thousandths of
//! normal speed, so that every unit conversion is exact integer
//! arithmetic; the host converts at its edge.
//!
//! - [`models`]: the state model and its units.
//! - [`platform`]: the controller contract, the session rules as a
//!   mathematical model, and the three backends.
//! - [`desktop`]: the facade over the one backend of a process.
//! - [`laws`]: what holds of the rules for every state and input.
//! - [`dictionary`], [`text`], [`base64_serde`]: what the backends build on.

pub mod base64_serde;
pub mod desktop;
pub mod dictionary;
pub mod laws;
pub mod models;
pub mod platform;
pub mod text;

pub use desktop::{init, Media};
pub use models::{
    InitializeMediaSessionRequest, MediaControlEvent, MediaControlEventType, MediaMetadata,
    PlaybackInfo, PlaybackStatus, Rate, RepeatMode, Seconds,
};
pub use platform::{create_media_controller, Controller, ControllerError, MediaController, TargetOs};
