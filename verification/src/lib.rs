//! A site-synchronization engine for serialized web content: per-site
//! chapter-feed providers, the chapter-position matching algorithm, a
//! short-TTL feed cache, an orchestrator that syncs many tracked sources
//! with per-source failure isolation, and the surrounding key-management
//! and query-building logic.
//!
//! Network I/O, persistence and scheduling are suspension points the caller
//! performs; every decision between them is verified here.

pub mod cache;
pub mod keys;
pub mod models;
pub mod queries;
pub mod report;
pub mod response;
pub mod scrape;
pub mod service;
pub mod settings;
pub mod strategies;
pub mod strategy;
pub mod text;
