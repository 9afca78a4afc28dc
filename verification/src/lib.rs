//! Mirrors the title of one application window into a text file.
//!
//! The library holds every decision of the poll loop: how the output of the
//! two window queries is read, which title a tick settles on, and when the
//! output file has to be rewritten. Running the queries, writing the file and
//! sleeping are left to the caller, which feeds the outcomes back in.

pub mod clock;
pub mod command;
pub mod history;
pub mod monitor;
pub mod poll;
pub mod text;
