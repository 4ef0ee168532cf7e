pub mod detail;
pub mod list;
pub mod settings;
pub mod tab_bar;
