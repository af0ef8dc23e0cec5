//! Server side of a windowing-system wire protocol: the byte codec, the
//! connection handshake, the request decoder, the atom registry and the
//! reply encoder.

pub mod atom;
pub mod codec;
pub mod connection;
pub mod event;
pub mod pixmap;
pub mod request;
pub mod response;
pub mod screen;
