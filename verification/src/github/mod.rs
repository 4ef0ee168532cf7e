pub mod call_log;
pub mod client;
pub mod models;
pub mod rate_limit;
