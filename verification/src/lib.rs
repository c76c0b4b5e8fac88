//! The logic of a client and a server that resume QUIC connections carefully:
//! what they do with tokens, requests and replies. The network, the disk and the
//! clock are left to the programs around it.

pub mod address;
pub mod bytes;
pub mod client;
pub mod collect;
pub mod endpoint;
pub mod file;
pub mod http;
pub mod key;
pub mod resume;
pub mod server;
pub mod tokens;
