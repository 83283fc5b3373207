//! The core of an SSH-2 endpoint: wire codec, packet framing, algorithm
//! negotiation, key exchange and authentication state, and the channel layer.

pub mod bytes;
pub mod channel;
pub mod cliauth;
pub mod conn;
pub mod crypto;
pub mod encrypt;
pub mod error;
pub mod ident;
pub mod kex;
pub mod namelist;
pub mod names;
pub mod packets;
pub mod servauth;
pub mod sign;
pub mod traffic;
pub mod wire;
