pub mod providers;
pub mod prompts;
pub mod response;
pub mod summarizer;
