//! Change detection for the builds of a multi-branch web application.

pub mod asset;
pub mod assoc;
pub mod branch;
pub mod cache;
pub mod catalog;
pub mod classes;
pub mod clock;
pub mod config;
pub mod detect;
pub mod dump;
pub mod manifest;
pub mod pattern;
pub mod report;
pub mod scrape;
pub mod store;
pub mod supervisor;
pub mod syntax;
pub mod text;
pub mod webhook;
pub mod webpack;
