//! Native frame capture for compositor screenshots.
//!
//! The library holds the protocol logic of a region capture as a state
//! machine free of I/O: the caller performs each requested action against the
//! display server and feeds back the events that the server sends.
pub mod args;
pub mod buffer;
pub mod encode;
pub mod engine;
pub mod environment;
pub mod event;
pub mod format;
pub mod frame;
pub mod geometry;
pub mod laws;
pub mod region;
pub mod registry;
pub mod selection;
