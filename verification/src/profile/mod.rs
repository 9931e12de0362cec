pub mod models;
pub mod filter;
