pub mod cache;
pub mod config;
pub mod ingest;
pub mod json;
pub mod message;
pub mod reading;
pub mod text;
pub mod topic;
pub mod tracker;
