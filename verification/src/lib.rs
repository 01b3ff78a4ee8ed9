pub mod codec;
pub mod config;
pub mod database;
pub mod fetch_and_compare;
pub mod git;
pub mod registry;
pub mod system;
pub mod worker;
