//! Core logic of a POSIX file-system test suite: the features and file flags a
//! file system may offer, the configuration model, file-creation planning and
//! the rules that decide which test cases run.

pub mod features;
pub mod path;
pub mod config;
pub mod context;
pub mod flags;
pub mod text;
pub mod runner;
