//! Scoring, streak and rank rules of the Vulcan commit forge, with the
//! decisions of its login, watcher and credential front ends.

pub mod calendar;
pub mod checkpoint;
pub mod daemon;
pub mod git;
pub mod github;
pub mod laws;
pub mod login;
pub mod state;
pub mod storage;
pub mod text;
pub mod watcher;
