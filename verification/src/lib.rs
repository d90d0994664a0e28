//! The decisions and state of GPUI's iOS platform layer, with their contracts.
//!
//! UIKit, Grand Central Dispatch and the renderer stay outside this crate; what
//! they are asked to do, and what the platform answers, is decided here.

pub mod dispatcher;
pub mod display;
pub mod hwnd;
pub mod platform;
pub mod slot;
pub mod window;

pub use dispatcher::{DelayedDispatch, IosDispatcher, Priority, QueuePriority};
pub use hwnd::NonNullHwnd;
pub use slot::Slot;
