pub mod retry;
pub mod database;
