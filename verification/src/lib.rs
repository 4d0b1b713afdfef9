//! The protocol core of `easy-rpc`, a cross-language RPC framework on MessagePack.

pub mod laws;
pub mod method;
pub mod packet;
pub mod packet_laws;
pub mod reply;
pub mod result;
pub mod service;
pub mod session;
pub mod session_laws;
pub mod shm;
pub mod shm_laws;
pub mod wire;
pub mod ws;
