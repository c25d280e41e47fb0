//! Verified core of the nanocl daemon: key derivation, configuration
//! merging, request validation, docker state classification and the
//! decision procedures that drive image builds and file downloads.

pub mod key;
pub mod text;
pub mod config;
pub mod error;
pub mod labels;
pub mod docker;
pub mod cargo;
pub mod records;
pub mod image;
pub mod weburl;
pub mod github;
pub mod gitbuild;
pub mod download;
pub mod server;
pub mod template;
pub mod vm;
pub mod cluster;
pub mod boot;
