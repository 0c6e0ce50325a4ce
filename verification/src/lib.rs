//! Click-through control for a transparent desktop-overlay window.
//!
//! The window shows an animated character and must pass mouse clicks to
//! whatever lies beneath it everywhere except over the character itself.
//! The crate holds the character's current bounding region, hit-tests
//! sampled cursor positions against it, and decides, tick by tick, when
//! the window's input-transparency flag has to change.

pub mod region;
pub mod store;
pub mod watcher;
