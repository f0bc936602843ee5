//! Gateway data path of a multi-account reverse proxy: routing, request
//! rewriting, candidate selection, per-account gating, token brokering and
//! failover decisions, each stated as a contract and proved.

pub mod text;
pub mod json;
pub mod config;
pub mod records;
pub mod schema;
pub mod rpc_types;
pub mod rpc;
pub mod route;
pub mod usage;
pub mod selection;
pub mod gate;
pub mod locks;
pub mod headers;
pub mod failover;
pub mod rewrite;
pub mod overrides;
pub mod validation;
pub mod broker;
pub mod proxy;
pub mod respond;
pub mod lifecycle;
