pub mod batching;
pub mod tasks;
pub mod service;
