//! Verified core of a small self-hosted upload server ("fake CDN"):
//! path validation, upload decisions, archive screening, configuration
//! resolution and the text of the files the tool writes.

pub mod archive;
pub mod cli;
pub mod conf;
pub mod init;
pub mod startup;
pub mod service;
pub mod text;
pub mod utils;
pub mod web;
