//! Core logic of a binary-content store service: opaque media identifiers,
//! storage-key derivation, identifier-to-key resolution over store listings,
//! presigned-URL adaptation for reverse-proxy deployments, and the upload
//! pipeline that validates content types and announces created media.

pub mod config;
pub mod error;
pub mod event;
pub mod graphql;
pub mod identifier;
pub mod media;
pub mod media_connection;
pub mod mutation;
pub mod presign;
pub mod query;
pub mod resolver;
