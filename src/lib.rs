//! Classifies the files of a directory by filename rules and decides, for each
//! one, whether it is protected, deleted, moved to a destination or left alone.
pub mod log;
pub mod matcher;
pub mod rules;
pub mod sort;
pub mod tally;
