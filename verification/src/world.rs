pub mod commands;
pub mod entity;
pub mod event;
pub mod query;
pub mod relationship;
pub mod system;
