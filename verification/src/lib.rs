//! Client-side codec and session logic for a broker trading-gateway wire
//! protocol: a length-framed, NUL-delimited, positional-field text protocol.
//!
//! The codec maps typed values to and from the wire's token stream, with
//! per-type sentinel tokens for absent optional fields and a forward-compatible
//! fallback for unknown message tags. The session layer produces the handshake
//! bytes and drives a state machine over decoded frames; the surrounding
//! program owns the socket and the two worker loops.

pub mod contract;
pub mod de;
pub mod error;
pub mod frame;
pub mod message;
pub mod num;
pub mod order;
pub mod request;
pub mod ser;
pub mod session;
pub mod text;
pub mod token;
pub mod types;

pub use contract::Contract;
pub use de::Deserializer;
pub use error::Error;
pub use message::Hello;
pub use message::Message;
pub use request::Request;
pub use ser::Serializer;
pub use session::Session;
pub use session::SessionState;
