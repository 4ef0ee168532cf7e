pub mod app;
pub mod config;
pub mod domain;
pub mod github;
pub mod notify;
pub mod polling;
pub mod ui;
pub mod util;
