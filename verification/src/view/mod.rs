pub mod app;
pub mod download;
