//! A report on the host's processor: its identity, a catalog of instruction
//! set and security features, and a summary, as text for a terminal.
//!
//! [`cpu_info`] asks the platform and makes the identity record, [`catalog`]
//! says which features are reported and from which flags, [`display`] writes
//! the text, and [`report`] joins them into a run. [`platform`] lists the
//! outside functions that are called, and what is taken on trust of them.

pub mod catalog;
pub mod cpu_features;
pub mod cpu_info;
pub mod decimal;
pub mod display;
pub mod platform;
pub mod report;
