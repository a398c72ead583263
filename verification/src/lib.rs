pub mod classify;
pub mod cli;
pub mod counter;
pub mod laws;
pub mod metadata;
pub mod organizer;
pub mod plan;
pub mod timestamp;
