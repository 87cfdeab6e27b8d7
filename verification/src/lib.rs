//! Keeps the listening port of a BitTorrent client equal to the port that a
//! VPN sidecar has forwarded and published in a file.
//!
//! The library decides and never does I/O: [`control`] is the poll loop as a
//! state machine, [`apps`] holds the two backends (qBittorrent's form API
//! and Deluge's JSON-RPC API) as runs of HTTP exchanges, [`rpc`] is the
//! JSON-RPC envelope, [`json`] the documents it is written in. The caller
//! sends the requests, reads the file and sleeps.

pub mod apps;
pub mod configuration;
pub mod control;
pub mod error;
pub mod json;
pub mod qbittorrent;
pub mod rpc;
pub mod text;
