//! Catalog and download pipeline for a single streaming site: entity model,
//! HTML extraction, paginated listing, persistent catalog and the download
//! scheduler's planning logic.

pub mod anime;
pub mod cache;
pub mod download;
pub mod fetch;
pub mod menu;
pub mod parser;
pub mod session;
pub mod settings;
pub mod text;
