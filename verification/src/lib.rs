//! Verified core of a Minecraft client and man-in-the-middle proxy: the
//! packet rewriting that swaps player UUIDs, the handshake and login
//! protocols as state machines, the client and proxy forwarding loops, the
//! event system, and the RSA step of the encrypted login.

pub mod packet;
pub mod proxy;
pub mod handshake;
pub mod client;
pub mod event;
pub mod crypto;
