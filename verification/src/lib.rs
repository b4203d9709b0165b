//! The decisions of a small text viewer: a line of typed text that a mouse
//! wheel scrolls, fed by a raw input-device context.
//!
//! The crate holds no window and opens no device. A caller performs the
//! outside work (polling the window, dispatching device input, drawing) and
//! reports each result here; the crate keeps the viewer's state and says
//! what follows.

pub mod access;
pub mod viewer;
