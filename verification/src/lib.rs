//! Live screen grabs from a Rigol DS1054Z oscilloscope, as a video source.
//!
//! The crate holds the decisions of the source: how a grabbed bitmap becomes
//! a video frame, and how the polling worker moves between its states. The
//! worker never performs I/O itself. It is handed events and answers each with
//! the next action to perform.

pub mod allocator;
pub mod control;
pub mod frame;
pub mod iteration;
pub mod module;
pub mod properties;
pub mod source;
pub mod worker;
