//! Verified core of a media-embedding search service.

pub mod text;
pub mod config;
pub mod encoding;
pub mod embedding;
pub mod listener;
pub mod ids;
pub mod media;
pub mod vectors;
pub mod routes;
pub mod startup;
