//! Core of an event-store client: domain records, the wire messages they are
//! carried in, and the decisions that the append, read, subscription and
//! persistent-subscription pipelines take around the transport.
pub mod append;
pub mod auth;
pub mod batch;
pub mod codec;
pub mod ids;
pub mod options;
pub mod package;
pub mod persistent;
pub mod read;
pub mod subscription;
pub mod text;
pub mod types;
pub mod wire;
