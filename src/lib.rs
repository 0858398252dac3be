//! Daily screen-time budget: the countdown, its persistence format, the
//! activity signal that feeds it, log rotation, and the per-tick controller.
pub mod activity;
pub mod budget;
pub mod controller;
pub mod rotation;
pub mod slot;
