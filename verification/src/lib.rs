//! Verified core of a LAN-only peer-to-peer messenger with desktop pets.

pub mod backoff;
pub mod bytes;
pub mod chat;
pub mod database;
pub mod discovery;
pub mod ids;
pub mod pets;
pub mod protocol;
pub mod service;
pub mod session;
pub mod settings;
pub mod shared;
pub mod state;
pub mod text;
pub mod time;
pub mod tls;
pub mod trust;
pub mod udp;
