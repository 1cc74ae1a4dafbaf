pub mod fetcher;
pub mod laws;
pub mod outcome;
pub mod urls;
