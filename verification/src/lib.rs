//! Verified core of a desktop popup-translation tool's window management.
//!
//! The crate covers the platform-divergent logic of ephemeral, auto-positioned
//! popup windows: where a window appears given the cursor position, display
//! bounds and DPI scaling; which cosmetic creation flags each platform and
//! window role gets; the per-role lifecycle state machine (toggle on repeat
//! invocation, auto-close on focus loss); and the shared selection buffer that
//! hands captured text to the window about to open. The host GUI framework
//! performs the actual window creation and OS queries; it consumes the plans
//! and decisions this crate computes and reports their outcomes back.

pub mod buffer;
pub mod config;
pub mod errors;
pub mod geometry;
pub mod lifecycle;
pub mod placement;
