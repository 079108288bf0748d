pub mod app;
pub mod trace;
