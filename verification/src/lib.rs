//! Core of a small geolocation ingestion service: the startup bootstrap
//! sequence that prepares the database (existence check, creation, pooled
//! connection, ordered schema migration, all-or-nothing failure policy) and
//! the request-handling decisions of the single write endpoint.

pub mod bootstrap;
pub mod config;
pub mod errors;
pub mod ingest;
pub mod migrations;
