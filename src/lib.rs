//! Server-side handshake helpers: ALPN protocol matching and a per-handshake
//! view over a certified key.
pub mod alpn;
pub mod bytes;
pub mod certified;
