//! Selecting an alpha-capable visual for a display-server screen, and
//! deciding whether a compositing manager currently owns the screen's
//! compositing selection.
//!
//! The library is pure: callers fetch the extension catalogs and selection
//! owners from the display server and hand the plain values to these
//! functions, which are verified against their contracts.

pub mod bitmap;
pub mod compositor;
pub mod selector;
pub mod xcb;
