//! A transport-free client for the Sonarr REST API.
//!
//! The library decides what is sent to the service and what a reply means; it
//! performs no I/O itself. A caller asks [`SonarrClient`] for an operation,
//! sends each [`Request`] it is handed, and feeds the reply back until the
//! exchange is done.

pub mod client;
pub mod decimal;
pub mod error;
pub mod exchange;
pub mod headers;
pub mod laws;
pub mod records;
pub mod url;

pub use client::SonarrClient;
pub use error::{ClientError, Endpoint};
pub use exchange::{Event, Method, Outcome, Payload, Pending, Reply, Request, Step};
pub use headers::auth_headers;
pub use records::{EpisodeInfo, SeriesInfo, Tag};
