//! The decisions of a memory-cleaning tool for Windows servers: which memory
//! lists can be purged, how often the automatic loop does so, what the system
//! monitor reports, and what the window shows for each of these.
//!
//! Nothing in this crate touches the operating system. A host program performs
//! the system call, the sleeps, the sampling and the drawing; this crate tells
//! it what to perform next and what to show.

pub mod cleaner;
pub mod interval;
pub mod mode;
pub mod monitor;
pub mod text;
pub mod winmem;
pub mod worker;
