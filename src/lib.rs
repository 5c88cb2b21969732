//! Image-to-WebP conversion service: the verified core.
//!
//! The modules hold the decisions of the service: option defaults, the
//! encoder's argument list, the bounded upload reader, the response
//! documents, the access guard, artifact naming and the retention sweep.
//! Sockets, files and processes are handled by the surrounding program.

pub mod convert;
pub mod errors;
pub mod auth;
pub mod ids;
pub mod ingest;
pub mod options;
pub mod params;
pub mod response;
pub mod retention;
pub mod text;

