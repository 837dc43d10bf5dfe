//! A typed client library for a gpodder.net-style podcast synchronization
//! service.
//!
//! The library builds every HTTP request of the protocol as a value
//! ([`http::HttpRequest`]) with a precise description of its method, URL,
//! query parameters, body and credentials, and decodes the JSON responses of
//! the service into typed values. Performing the requests over the network is
//! left to a thin, unverified transport around the library.

pub mod client;
pub mod datetime;
pub mod device;
pub mod directory;
pub mod episode;
pub mod error;
pub mod favorite;
pub mod http;
pub mod json;
pub mod settings;
pub mod strutil;
pub mod subscription;
pub mod suggestion;
pub mod urlenc;
