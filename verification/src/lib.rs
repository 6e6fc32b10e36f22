//! Verified core of a peer-to-peer chat: the signalling server's rules and
//! registries, and the desktop client's connection state.
pub mod errors;
pub mod models;
pub mod connection_manager;
pub mod peers;
pub mod refresh_token;
pub mod ws_client;
pub mod signalling;
pub mod friends;
pub mod auth;
pub mod config;
pub mod data_channels;
pub mod keyring_store;
pub mod client;
pub mod password;
pub mod jwt;
pub mod ids;
