//! A reverse proxy for devices that cannot accept connections: each device
//! dials out to the proxy and keeps a tunnel open, and the requests of
//! clients are multiplexed over that tunnel.
//!
//! This crate holds the decisions of the proxy, each with a contract that
//! Verus proves: the registry of devices and their request queues, the
//! classification and routing of requests, what is forwarded to a device and
//! how its answer is relayed, the issuance and renewal of the TLS
//! certificate, the fair polling of listeners, and graceful shutdown. The
//! sockets, handshakes and timers that carry the decisions out live in the
//! runtime around it.
//!
//! The module [`clvm`] stands apart from the proxy: it decodes the values of
//! CLVM programs into values of Rust.

pub mod acme;
pub mod auth;
pub mod binding;
pub mod challenge;
pub mod clvm;
pub mod device;
pub mod error;
pub mod forward;
pub mod headers;
pub mod json;
pub mod jws;
pub mod message;
pub mod proxy;
pub mod queue;
pub mod response;
pub mod router;
pub mod shutdown;
pub mod table;
pub mod text;
pub mod tls;
pub mod watchdog;

pub use crate::error::Error;
pub use crate::message::{Body, ConnectionInfo};
pub use crate::proxy::ProxyBuilder;
pub use crate::router::{
    BlockingRequestHandler, ClientHandlerResult, DeviceHandlerResult, RequestHandlerAdapter,
};
