pub mod components;
pub mod format;
pub mod icons;
pub mod markdown;
pub mod search;
pub mod theme;
