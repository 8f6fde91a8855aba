//! A small client for a wiki REST API: configuration is gathered by a
//! builder, checked once, and turned into an immutable client whose
//! resource views share one authenticated transport.
pub mod text;
pub mod transport;
pub mod error;
pub mod api;
pub mod client;

pub use client::{C8e, ConfluenceBuilder};
pub use error::{BuildError, ConfigurationError};
