//! Client-side logic for the connectionless UDP tracker protocol: a
//! fixed-layout big-endian wire codec, the message value types, the
//! handshake state with its expiry window, the per-request retry and
//! correlation policy, and the session that sequences them; alongside a
//! small content-index data model (categories, pagination, torrent
//! records) and show-metadata records consumed by the surrounding glue.

pub mod category;
pub mod codec;
pub mod connection;
pub mod correlator;
pub mod errors;
pub mod index;
pub mod metadata;
pub mod messages;
pub mod session;
pub mod wire;
