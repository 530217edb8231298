//! Decision logic of a desktop shell that shows one web endpoint in one
//! window and is steered from a tray menu.
//!
//! The crate holds no windowing code. It decides which endpoint is loaded,
//! what the window and the tray menu look like, in which order they are set
//! up, and what a tray menu event does. A host program carries the decisions
//! out and reports back how the outside work went.

pub mod endpoint;
pub mod window;
pub mod tray;
pub mod shell;
pub mod history;
