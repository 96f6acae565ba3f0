pub mod bitset;
pub mod commands;
pub mod component_store;
pub mod query;
pub mod relationship;
pub mod storage;
pub mod system;
