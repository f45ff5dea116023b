//! Telnet option negotiation: a byte-stream scan that extracts the client's
//! window size from a NAWS sub-negotiation.
//!
//! One invocation consumes one read's worth of bytes. Scanning left to
//! right: a 255 (IAC) byte begins a command; IAC SB opens a sub-negotiation
//! whose option byte follows. A NAWS sub-negotiation must carry exactly four
//! payload bytes (big-endian halves of two 16-bit integers); on finding them
//! the scan reports the size at once, without waiting for the IAC SE
//! terminator, while sub-negotiations for every other option are skipped by
//! scanning forward to the terminator or to the end of the buffer. Any other
//! command is skipped as a fixed three-byte unit, and plain data bytes one
//! at a time. A sequence truncated at the buffer end never reads out of
//! bounds and never yields a partial size: the scan just reports incomplete
//! and the caller reads again or falls back to default dimensions.

use vstd::prelude::*;

verus! {

/// Telnet "interpret as command" marker.
pub const IAC: u8 = 255;

/// Telnet DO command.
pub const DO: u8 = 253;

/// Telnet WILL command.
pub const WILL: u8 = 251;

/// Suppress-go-ahead option.
pub const SGA: u8 = 3;

/// Terminal-type option.
pub const TTYPE: u8 = 24;

/// Negotiate-about-window-size option.
pub const NAWS: u8 = 31;

/// Sub-negotiation opener.
pub const SB: u8 = 250;

/// Sub-negotiation terminator.
pub const SE: u8 = 240;

/// The 16-bit integer two big-endian bytes spell.
pub open spec fn word16(hi: u8, lo: u8) -> u16 {
    (hi as int * 256 + lo as int) as u16
}

/// Cursor position after skipping a sub-negotiation payload that starts at
/// `i`: advance one byte at a time until an IAC SE pair starts at the
/// cursor, and consume the pair; stop at the last byte if the buffer holds
/// no terminator.
pub open spec fn skip_to_subneg_end(data: Seq<u8>, i: int) -> int
    decreases data.len() - i,
{
    if i + 1 >= data.len() {
        i
    } else if data[i] == IAC && data[i + 1] == SE {
        i + 2
    } else {
        skip_to_subneg_end(data, i + 1)
    }
}

/// Skipping never moves the cursor backwards, and never past the buffer end
/// when it started inside it.
pub proof fn lemma_skip_bounds(data: Seq<u8>, i: int)
    ensures
        i <= skip_to_subneg_end(data, i),
        i <= data.len() ==> skip_to_subneg_end(data, i) <= data.len(),
    decreases data.len() - i,
{
    if i + 1 >= data.len() {
    } else if data[i] == IAC && data[i + 1] == SE {
    } else {
        lemma_skip_bounds(data, i + 1);
    }
}

/// Measure for the scan: bytes left in front of the cursor.
pub open spec fn scan_measure(data: Seq<u8>, i: int) -> int {
    if i >= data.len() {
        0
    } else {
        data.len() - i
    }
}

/// What one negotiation pass returns when it scans the buffer from position
/// `i`: the window size carried by the first NAWS sub-negotiation whose four
/// payload bytes all lie in the buffer, or nothing if the buffer holds none.
pub open spec fn scan_from(data: Seq<u8>, i: int) -> Option<(u16, u16)>
    decreases scan_measure(data, i),
        via scan_from_decreases
{
    if i >= data.len() {
        None
    } else if data[i] == IAC && i + 1 < data.len() {
        if data[i + 1] == SB {
            if i + 2 >= data.len() {
                None
            } else if data[i + 2] == NAWS {
                if i + 7 <= data.len() {
                    Some((word16(data[i + 3], data[i + 4]), word16(data[i + 5], data[i + 6])))
                } else {
                    scan_from(data, i + 3)
                }
            } else {
                scan_from(data, skip_to_subneg_end(data, i + 3))
            }
        } else {
            scan_from(data, i + 3)
        }
    } else {
        scan_from(data, i + 1)
    }
}

#[via_fn]
proof fn scan_from_decreases(data: Seq<u8>, i: int) {
    lemma_skip_bounds(data, i + 3);
}

/// Scan one read's worth of bytes for a complete NAWS sub-negotiation and
/// return the window size it carries, or `None` when the buffer holds none
/// and the caller should read again or fall back to defaults.
pub fn parse_naws(data: &[u8]) -> (r: Option<(u16, u16)>)
    ensures
        r == scan_from(data@, 0),
{
    let len: usize = data.len();
    let mut i: usize = 0;
    while i < len
        invariant
            len == data@.len(),
            i <= len,
            scan_from(data@, 0) == scan_from(data@, i as int),
        ensures
            scan_from(data@, 0) is None,
        decreases len - i,
    {
        let ghost i0: int = i as int;
        if data[i] == IAC && i + 1 < len {
            if data[i + 1] == SB {
                if i + 2 >= len {
                    break;
                }
                let option_byte: u8 = data[i + 2];
                i = i + 3;
                if option_byte == NAWS {
                    if len - i >= 4 {
                        let w: u16 = (data[i] as u16) * 256 + (data[i + 1] as u16);
                        let h: u16 = (data[i + 2] as u16) * 256 + (data[i + 3] as u16);
                        return Some((w, h));
                    }
                    // fewer than four payload bytes before the buffer end:
                    // no size this read; keep scanning from here
                } else {
                    // another option's sub-negotiation: skip its payload
                    // to the IAC SE terminator or the buffer end
                    while i < len - 1 && !(data[i] == IAC && data[i + 1] == SE)
                        invariant
                            len == data@.len(),
                            i0 + 3 <= i <= len,
                            len >= 3,
                            skip_to_subneg_end(data@, i as int) == skip_to_subneg_end(
                                data@,
                                i0 + 3,
                            ),
                        decreases len - i,
                    {
                        i = i + 1;
                    }
                    if i < len - 1 {
                        i = i + 2;
                    }
                    assert(i as int == skip_to_subneg_end(data@, i0 + 3));
                }
            } else {
                // a plain command: IAC, command byte, option byte
                if len - i >= 3 {
                    i = i + 3;
                } else {
                    i = len;
                }
                assert(scan_from(data@, i0 + 3) is None ==> scan_from(data@, i as int) is None);
            }
        } else {
            i = i + 1;
        }
    }
    None
}

/// Scan a read buffer for a complete NAWS sub-negotiation; on success write
/// the client's window size to `width` and `height` and report completion.
/// When the buffer holds no complete NAWS payload, both outputs keep their
/// previous values: no partial or garbage size is ever written.
pub fn parse_telnet_commands(data: &[u8], width: &mut u16, height: &mut u16) -> (found: bool)
    ensures
        match scan_from(data@, 0) {
            Some(size) => found && *final(width) == size.0 && *final(height) == size.1,
            None => !found && *final(width) == *old(width) && *final(height) == *old(height),
        },
{
    match parse_naws(data) {
        Some((w, h)) => {
            *width = w;
            *height = h;
            true
        },
        None => false,
    }
}

/// The nine-byte handshake a telnet server sends on connect:
/// IAC WILL SGA, IAC DO TTYPE, IAC DO NAWS.
pub open spec fn handshake_bytes() -> Seq<u8> {
    seq![IAC, WILL, SGA, IAC, DO, TTYPE, IAC, DO, NAWS]
}

/// Build the connect handshake.
pub fn telnet_handshake() -> (r: Vec<u8>)
    ensures
        r@ == handshake_bytes(),
{
    let mut r: Vec<u8> = Vec::new();
    r.push(IAC);
    r.push(WILL);
    r.push(SGA);
    r.push(IAC);
    r.push(DO);
    r.push(TTYPE);
    r.push(IAC);
    r.push(DO);
    r.push(NAWS);
    proof {
        assert(r@ =~= handshake_bytes());
    }
    r
}

/// A correctly framed NAWS sub-negotiation announcing the given window size:
/// IAC SB NAWS, the four big-endian size bytes, IAC SE.
pub open spec fn naws_subneg_bytes(width: u16, height: u16) -> Seq<u8> {
    seq![
        IAC,
        SB,
        NAWS,
        (width as int / 256) as u8,
        (width as int % 256) as u8,
        (height as int / 256) as u8,
        (height as int % 256) as u8,
        IAC,
        SE,
    ]
}

/// Build the NAWS sub-negotiation a client answers the handshake with.
pub fn naws_subnegotiation(width: u16, height: u16) -> (r: Vec<u8>)
    ensures
        r@ == naws_subneg_bytes(width, height),
{
    let mut r: Vec<u8> = Vec::new();
    r.push(IAC);
    r.push(SB);
    r.push(NAWS);
    r.push((width / 256) as u8);
    r.push((width % 256) as u8);
    r.push((height / 256) as u8);
    r.push((height % 256) as u8);
    r.push(IAC);
    r.push(SE);
    proof {
        assert(r@ =~= naws_subneg_bytes(width, height));
    }
    r
}

/// NAWS round trip: scanning a correctly framed NAWS sub-negotiation
/// recovers exactly the width and height that were encoded into it.
pub proof fn lemma_naws_round_trip(width: u16, height: u16)
    ensures
        scan_from(naws_subneg_bytes(width, height), 0) == Some((width, height)),
{
    let data = naws_subneg_bytes(width, height);
    assert(word16(data[3], data[4]) == width);
    assert(word16(data[5], data[6]) == height);
}

/// A complete NAWS sub-negotiation starts at position `p` of the buffer:
/// IAC SB NAWS with all four payload bytes inside the buffer.
pub open spec fn complete_naws_at(data: Seq<u8>, p: int) -> bool {
    &&& 0 <= p
    &&& p + 7 <= data.len()
    &&& data[p] == IAC
    &&& data[p + 1] == SB
    &&& data[p + 2] == NAWS
}

/// A reported size needs a complete NAWS sub-negotiation in the buffer: a
/// scan of a buffer whose every NAWS sub-negotiation is truncated (fewer
/// than four payload bytes before the buffer end) reports incomplete.
pub proof fn lemma_scan_needs_complete_naws(data: Seq<u8>, i: int)
    requires
        0 <= i,
    ensures
        scan_from(data, i) is Some ==> exists|p: int| #[trigger] complete_naws_at(data, p),
    decreases scan_measure(data, i),
{
    if i >= data.len() {
    } else if data[i] == IAC && i + 1 < data.len() {
        if data[i + 1] == SB {
            if i + 2 >= data.len() {
            } else if data[i + 2] == NAWS {
                if i + 7 <= data.len() {
                    assert(complete_naws_at(data, i));
                } else {
                    lemma_scan_needs_complete_naws(data, i + 3);
                }
            } else {
                lemma_skip_bounds(data, i + 3);
                lemma_scan_needs_complete_naws(data, skip_to_subneg_end(data, i + 3));
            }
        } else {
            lemma_scan_needs_complete_naws(data, i + 3);
        }
    } else {
        lemma_scan_needs_complete_naws(data, i + 1);
    }
}

} // verus!
