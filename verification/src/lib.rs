//! A virtual file system that fuses a local workspace with a cloud drive
//! container under one path space.  This crate holds the verified core:
//! error codes, token and workspace state, path resolution, the fusion
//! decisions of every file operation, the merge of local and cloud listings,
//! and the request framing of the cloud drive protocol.

pub mod error;
pub mod text;
pub mod order;
pub mod atmanager;
pub mod workspace;
pub mod list;
pub mod cloud;
pub mod walk;
pub mod read;
pub mod stat;
pub mod filesystem;
pub mod rm;
pub mod mkdir;
pub mod upload;
pub mod write;
pub mod p2p;
pub mod rcp;
pub mod display;
