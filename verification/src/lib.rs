//! The core of a small subscription service, without its I/O: routing, the
//! correlation identifier and the trace of each request, the decoding of a
//! submitted form, the row that is stored for it, and the status that
//! answers it. The caller owns the socket and the database; it hands requests
//! and the store's answers in and gets responses, rows and traces back.

pub mod clock;
pub mod dto;
pub mod error;
pub mod http;
pub mod id;
pub mod lifecycle;
pub mod routes;
pub mod startup;
pub mod telemetry;
