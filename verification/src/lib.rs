//! The logic of a SOCKS proxy whose connections go through a WireGuard tunnel.
//!
//! A client speaks SOCKS (`socks`); its connection is made by a TCP stack in user space (`tcp`,
//! `hub`, `ports`), whose packets go through a device (`wg_device`) into the tunnel (`tunnel`).
//! Once the connection is up, octets go back and forth (`relay`). The parts talk to the main loop
//! by messages (`queue`).

pub mod config;
pub mod hub;
pub mod hub_laws;
pub mod ports;
pub mod queue;
pub mod relay;
pub mod relay_laws;
pub mod socks;
pub mod socks_laws;
pub mod stream_laws;
pub mod tcp;
pub mod tunnel;
pub mod wg_device;
