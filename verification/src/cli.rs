//! Runtime options shared by every transport.

use vstd::prelude::*;

verus! {

/// Options a server run is configured with: which transport to serve, the
/// telnet listen port, an optional cap on the number of animation ticks, and
/// the display toggles for the counter overlay and per-frame screen clearing.
///
/// Argument parsing happens outside the library; parsed values are handed in
/// through this plain struct.
#[derive(Clone, Copy, Debug)]
pub struct Args {
    /// Serve the animation over raw TCP telnet sessions.
    pub telnet: bool,
    /// Serve the animation over websocket connections.
    pub http: bool,
    /// Suppress the decorative counter overlay.
    pub no_counter: bool,
    /// Do not emit the clear-screen sequence before each frame.
    pub no_clear: bool,
    /// Stop a session after this many ticks, if set.
    pub frames: Option<usize>,
    /// Port the telnet listener binds to.
    pub port: u16,
}

impl Args {
    /// Options for a plain local-terminal run: no transport selected, all
    /// overlays on, no tick limit, and the conventional telnet port.
    pub fn new() -> (r: Args)
        ensures
            !r.telnet,
            !r.http,
            !r.no_counter,
            !r.no_clear,
            r.frames is None,
            r.port == 23,
    {
        Args { telnet: false, http: false, no_counter: false, no_clear: false, frames: None, port: 23 }
    }
}

} // verus!
