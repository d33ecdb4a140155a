//! A backend-for-frontend gateway: service configuration, error-to-HTTP
//! mapping, JSON reply framing and the connection settings of its gRPC
//! upstreams.

pub mod text;
pub mod error;
pub mod config;
pub mod channel;
pub mod endpoint;
pub mod reply;
pub mod greeter;
pub mod user;
