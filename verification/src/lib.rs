//! A minimal graphics-application core: the state behind a window that
//! clears each frame to a color driven by the cursor position.
//!
//! The library models the surface configuration, the clear color and the
//! per-frame command sequence as plain values; the windowing and GPU layers
//! live outside and hand events in as plain values.

pub mod apparat;
pub mod color;
pub mod icon;

pub use apparat::FramePlan;
pub use apparat::RenderStep;
pub use apparat::State;
pub use apparat::SurfaceError;
pub use apparat::WindowEvent;
pub use color::Channel;
pub use color::ClearColor;
