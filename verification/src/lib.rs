//! The server side of a SOCKS version 5 connection: what goes over the wire,
//! byte for byte, and how much of it to read next.
//!
//! Nothing here performs I/O. A reader is handed the bytes that arrived so far
//! and answers with how many more it wants or with the value they stand for; a
//! writer answers with the bytes to send.

pub mod net;
pub mod v5;
