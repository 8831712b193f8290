//! A documentation cache that fronts upstream package repositories.
//!
//! The library holds the decisions: where a project lives on disk, when a
//! cached version is stale, what a background build pass does next, and what
//! a request for a documentation page is answered with.
pub mod repository;
pub mod config;
pub mod project;
pub mod text;
pub mod metadata;
pub mod project_processor;
pub mod multi;
pub mod zip;
