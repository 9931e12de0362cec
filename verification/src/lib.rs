pub mod ai;
pub mod cli;
pub mod ids;
pub mod error;
pub mod scheduler;
pub mod text;
pub mod storage;
pub mod config;
pub mod feed;
pub mod ipc;
pub mod profile;
