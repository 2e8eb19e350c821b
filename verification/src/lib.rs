//! A small CoAP resource server core: the message codec, the mapping from
//! Uri options to a path below a storage root, and the request dispatcher
//! that turns a decoded request into store operations and one response.
//!
//! Nothing here touches a socket or a file. The dispatcher is a state
//! machine: it names the store operation it needs next and is resumed with
//! what the operation gave.

pub mod decode;
pub mod decode_laws;
pub mod dispatch;
pub mod dispatch_laws;
pub mod encode;
pub mod error;
pub mod message;
pub mod resolve;
pub mod resolve_laws;
pub mod roundtrip;
pub mod store_model;
pub mod wire;
