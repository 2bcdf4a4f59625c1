//! Verified core of the MirrOx screen-mirroring tool: the wire formats it
//! speaks (client hello, framebuffer frames, binder transactions and
//! replies), the decisions of its connection, streaming and ADB session
//! logic, and the frame checks of its viewers.

pub mod wire;
pub mod framebuffer;
pub mod tcp_client;
pub mod decimal;
pub mod os_error;
pub mod tcp_stream;
pub mod adb;
pub mod binder_transaction;
pub mod binder;
pub mod media_projection;
pub mod mux;
pub mod viewer;
pub mod streamer;
pub mod utils;
