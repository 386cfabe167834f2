//! Authorization plane of a bridge between MCP clients and the Google Calendar API.
//!
//! The library holds the verified logic: configuration defaults, the token cabinet,
//! the pending-session registry, bearer-token ingest, the request gate, discovery
//! documents and the downstream OAuth authorization server. Network, disk and HTTP
//! plumbing live outside it and hand it plain values.
pub mod config;
pub mod table;
pub mod text;
pub mod instant;
pub mod ids;
pub mod urls;
pub mod token;
pub mod store;
pub mod session;
pub mod ingest;
pub mod gate;
pub mod discovery;
pub mod proxy;
pub mod calendar;
