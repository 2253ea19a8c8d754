//! An interactive command launcher: each input line is split into stages,
//! and every stage is run as its own foreground job on the controlling
//! terminal, with process-group assignment, a parent/child handshake, and
//! foreground restoration proved to follow the job-control protocol.
//!
//! Stages of one line run strictly one after another, each to completion,
//! with no data connection between them: the separator syntax selects
//! sequential launching, not a pipeline.  This is deliberate.

pub mod launcher;
pub mod model;
pub mod parser;
pub mod runloop;
pub mod signals;
