//! Signalling for a peer-to-peer data channel.
//!
//! Two peers that want to open a WebRTC data channel exchange session descriptions and
//! ICE candidates over a web socket first. This crate holds what a peer decides while it
//! does so: which texts it sends and in which order, what it does with each message that
//! it receives, which candidates it keeps back, and when it gives up.
//!
//! Nothing here waits or talks to the network. [`server::SignalingServer`] hands out one
//! [`protocol::Action`] at a time; the caller performs it and hands back a
//! [`protocol::Reply`].

pub mod clock;
pub mod command;
pub mod config;
pub mod forms;
pub mod interleaving;
pub mod json;
pub mod laws;
pub mod protocol;
pub mod receiving;
pub mod requests;
pub mod runs;
pub mod server;
pub mod signal;
pub mod startup;
pub mod text;
pub mod views;

pub use clock::timestamp_now;
pub use server::SignalingServer;
