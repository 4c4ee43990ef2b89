//! Supervisor logic that relaunches a command until it exits successfully:
//! shell-quoted rendering of the command line, classification of each
//! attempt's termination, and the retry decision with its diagnostics.

pub mod controller;
pub mod decimal;
pub mod escape;
pub mod render;
