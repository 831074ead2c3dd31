//! A searchable cheat sheet of keyboard shortcuts for a terminal pane.
//!
//! The crate holds the catalog of shortcuts, the navigation and search state
//! machine driven by key events, and the layout of a frame as text lines.
//! The host delivers key events, performs the close request and prints the
//! lines; none of that happens here.

pub mod catalog;
pub mod frame;
pub mod host;
pub mod session;
pub mod text;
