//! A session-bound coding agent: its definition and mid-session mode
//! switches, the prompt context it renders from, its reminder and
//! compaction policies, and the set of files read in the session.
use vstd::prelude::*;

pub mod agent;
pub mod clock;
pub mod compaction;
pub mod config;
pub mod file_read_tracker;
pub mod prompt;
pub mod system_reminder;
