//! Client side of the Sousa remote-control protocol: building requests,
//! framing them for the wire, decoding the server's reply and resolving an
//! ambiguous search into one track.

pub mod address;
pub mod message_types;
pub mod request;
pub mod resolver;
pub mod session;
pub mod table;
pub mod text;
pub mod wire;
