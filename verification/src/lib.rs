pub mod config;
pub mod errors;
pub mod event;
pub mod icon;
pub mod publish;
pub mod names;
pub mod pipeline;
pub mod sanitize;
pub mod template;
pub mod text;
