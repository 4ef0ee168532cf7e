pub mod attention;
pub mod attention_laws;
pub mod lifecycle;
pub mod pr;
pub mod pr_list;
pub mod rules;
pub mod sort_order;
pub mod timeline_store;
pub mod time;
