//! The typed objects that events create and update.

pub mod any;
pub mod calendar;
pub mod news;
pub mod pins;
pub mod relations;
pub mod status;
pub mod tasks;
