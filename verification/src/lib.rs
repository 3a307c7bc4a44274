//! Codecs, schema decisions and path policies of the Atelier workspace database.

pub mod agent;
pub mod catalog;
pub mod codec;
pub mod connection;
pub mod decode;
pub mod desktop;
pub mod domain;
pub mod error;
pub mod gallery;
pub mod generation_codec;
pub mod job_history;
pub mod json;
pub mod library;
pub mod migration;
pub mod schema;
pub mod text;
