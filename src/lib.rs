//! Submission intake engine of a homework bot: the per-user dialogue state
//! machine, the media-group aggregator and the decisions of the periodic jobs.
pub mod text;
pub mod states;
pub mod catalog;
pub mod store;
pub mod media;
pub mod actions;
pub mod engine;
pub mod buttons;
pub mod jobs;
pub mod laws;
pub mod menus;
