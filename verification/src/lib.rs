//! Verified core of an ABAP language server.

pub mod backend;
pub mod backend_laws;
pub mod config;
pub mod context;
pub mod context_laws;
pub mod dotfile;
pub mod environment;
pub mod file_url;
pub mod fingerprint;
pub mod handlers;
pub mod launch;
pub mod laws;
pub mod lifecycle;
pub mod model;
pub mod mounts;
pub mod path;
pub mod percent;
pub mod protocol;
pub mod repository;
pub mod rpc;
pub mod server;
pub mod server_laws;
pub mod slots;
pub mod text;
pub mod text_map;
pub mod uri;
pub mod uri_laws;
