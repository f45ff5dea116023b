//! Core of a multi-transport ASCII-art animation streamer.
//!
//! The library holds the verified logic shared by every transport: telnet
//! option negotiation (NAWS window-size extraction), centered viewport
//! clipping of a fixed-size frame against a client's terminal size, the
//! color encoding of art characters into terminal escape sequences, frame
//! assembly and cyclic frame-index bookkeeping, and the two-phase websocket
//! session protocol with its fixed JSON message schema.
//!
//! Transports themselves (TCP sockets, websockets, the local terminal) do
//! I/O and live outside the library; they hand plain values in and take
//! plain values or assembled byte buffers back.

pub mod cli;
pub mod color;
pub mod frame;
pub mod latency;
pub mod telnet;
pub mod viewport;
pub mod ws;
