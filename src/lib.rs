//! The core of a terminal dashboard: one progress gauge whose color the user
//! cycles and which a background ticker fills, driven by a single event loop.
//!
//! The library holds the events, the application state and its transition
//! function, the decisions of the main loop over a queue of events, and the
//! ticker's sequence of progress values. Terminal I/O, threads, the channel
//! and the rendering live outside it.
pub mod app;
pub mod event;
pub mod ticker;
