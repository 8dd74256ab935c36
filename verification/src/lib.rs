//! Channel protocol, signature parsing and stub generation for metropipe.
pub mod cli;
pub mod client;
pub mod exchange;
pub mod header;
pub mod export;
pub mod export_templates;
pub mod go_stub;
pub mod protocol;
pub mod providers;
pub mod service_templates;
pub mod signature;
pub mod stub;
pub mod template;
pub mod text;
pub mod types;
