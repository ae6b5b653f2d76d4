//! The decisions of a CoAP transport over DTLS.
//!
//! No function here does I/O. Where the transport has to bind a socket, shake hands, receive or
//! send, one function says what to do, and another takes the outcome and decides how to go on.
//! The types that only travel through the decisions, such as the connection itself, are type
//! parameters, which default to those of `webrtc_dtls` and `webrtc_util`.
//!
//! - [`connection`]: setting up a connection as a client, and using it;
//! - [`listen`]: accepting connections as a server;
//! - [`serve`]: receiving requests on an accepted connection;
//! - [`response`]: the way back to the sender of a request.

pub mod addr;
pub mod connection;
pub mod error;
pub mod listen;
pub mod response;
pub mod serve;

pub use addr::{SocketAddr, SocketAddrV4, SocketAddrV6};
pub use connection::{
    Binding, Connecting, DtlsConfig, DtlsConnection, Handshake, Handshaking, ReadJob, WriteJob,
    HANDSHAKE_TIMEOUT_SECS,
};
pub use error::{Cause, Error, ErrorKind};
pub use listen::accepted;
pub use response::DtlsResponse;
pub use serve::{spawn_webrtc_conn, ConnStep, Forwarding, Receiving, Session, VECTOR_LENGTH};
