//! Deployment synthesis: classify a repository snapshot, decide on an
//! infrastructure topology, and render the declarative configuration text
//! that provisions it.

pub mod ai_nlp;
pub mod classify;
pub mod credentials;
pub mod dependencies;
pub mod deployment;
pub mod docker;
pub mod envfile;
pub mod hcl;
pub mod infrastructure;
pub mod json;
pub mod names;
pub mod nlp;
pub mod ports;
pub mod provision;
pub mod repository;
pub mod terraform;
pub mod text;
pub mod tree;
