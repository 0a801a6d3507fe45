//! Pointer-hover detection and cursor presentation for text-editing widgets
//! hosted in a real-time rendering loop.
//!
//! Every frame the host feeds this crate the pointer position (projected to
//! world space), the live sprite widgets, and the UI interactions that changed;
//! the probes in [`hover`] reduce those to edge-triggered
//! [`TextHoverIn`]/[`TextHoverOut`] notifications, and the reducer in
//! [`cursor`] derives the window's cursor icon and visibility from the
//! notification stream plus the text-changed and pointer-activity signals.

pub mod cursor;
pub mod geometry;
pub mod hover;

pub use cursor::{
    change_cursor, run_frame, CursorConfig, CursorIcon, CursorSet, CursorState, FrameInput,
};
pub use geometry::IVec2;
pub use hover::{
    hover_sprites, hover_ui, track_edge, HoverEvents, HoverState, Interaction, SpriteHoverTarget,
    TextHoverIn, TextHoverOut, Visibility,
};
