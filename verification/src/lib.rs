//! Connectivity core of a VPN client's API access layer.
//!
//! The library decides; the program around it performs the network and disk
//! operations that the decisions call for. Every module states its rules as
//! contracts over plain values.

pub mod abortable_stream;
pub mod access;
pub mod address_cache;
pub mod api;
pub mod cipher;
pub mod cli;
pub mod device;
pub mod endpoint;
pub mod error;
pub mod https_client_with_sni;
pub mod migrations;
pub mod net;
pub mod obfuscation;
pub mod proxy;
pub mod rest;
pub mod runtime;
pub mod text;
pub mod time;
pub mod uri;
pub mod wireguard;
