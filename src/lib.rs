//! Classification of tab-delimited import log lines, locale-aware warning
//! detection, and user-configurable error suppression rules.

pub mod text;
pub mod utils;
pub mod log_line;
pub mod rules;
pub mod error_rule;
pub mod color_type;
pub mod notifications;
pub mod session;
pub mod config;
