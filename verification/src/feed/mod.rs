pub mod document;
pub mod fetcher;
pub mod models;
pub mod opml;
pub mod parser;
pub mod xml;
