//! Centered viewport clipping of a fixed-size animation frame against a
//! client's reported terminal size.
//!
//! Every rendered art cell occupies two character columns on the client
//! display, so the number of frame columns that fit is half the client
//! width. The last client row is reserved for a status line, so one fewer
//! row of art is shown than the client height. A frame larger than the
//! client window is centered: an equal margin (up to truncation) is cut
//! from each side.

use vstd::prelude::*;

verus! {

/// Number of frame columns that fit on a client display of the given width:
/// each art cell is drawn as two characters.
pub open spec fn spec_visible_cols(client_width: u16) -> int {
    client_width as int / 2
}

/// First visible frame column: half the horizontal overshoot, zero when the
/// whole frame width fits.
pub open spec fn spec_min_col(frame_width: int, client_width: u16) -> int {
    if spec_visible_cols(client_width) >= frame_width {
        0
    } else {
        (frame_width - spec_visible_cols(client_width)) / 2
    }
}

/// One past the last visible frame column: the visible column count past
/// `spec_min_col`, clipped to the frame width.
pub open spec fn spec_max_col(frame_width: int, client_width: u16) -> int {
    spec_min_col(frame_width, client_width) + if spec_visible_cols(client_width) >= frame_width {
        frame_width
    } else {
        spec_visible_cols(client_width)
    }
}

/// First visible frame row: half the vertical overshoot, zero when the whole
/// frame height fits.
pub open spec fn spec_min_row(frame_height: int, client_height: u16) -> int {
    if client_height as int >= frame_height {
        0
    } else {
        (frame_height - client_height as int) / 2
    }
}

/// One past the last visible frame row: one fewer row than the client height
/// (the last client row carries the status line), clipped to the frame
/// height.
pub open spec fn spec_max_row(frame_height: int, client_height: u16) -> int {
    if spec_min_row(frame_height, client_height) + client_height as int - 1 <= frame_height {
        spec_min_row(frame_height, client_height) + client_height as int - 1
    } else {
        frame_height
    }
}

/// The viewport a `frame_width` x `frame_height` frame is clipped to for a
/// client of the given size, all four bounds at once.
pub open spec fn spec_viewport(
    frame_width: int,
    frame_height: int,
    client_width: u16,
    client_height: u16,
) -> Viewport {
    Viewport {
        min_row: spec_min_row(frame_height, client_height) as usize,
        max_row: spec_max_row(frame_height, client_height) as usize,
        min_col: spec_min_col(frame_width, client_width) as usize,
        max_col: spec_max_col(frame_width, client_width) as usize,
    }
}

/// The sub-rectangle of a frame visible to a client, as half-open
/// `[min, max)` ranges into the frame's row and column index space.
#[derive(Clone, Copy, Debug, PartialEq, Eq, Structural)]
pub struct Viewport {
    pub min_row: usize,
    pub max_row: usize,
    pub min_col: usize,
    pub max_col: usize,
}

impl Viewport {
    /// The viewport's ranges lie within a frame of the given dimensions.
    pub open spec fn in_bounds(self, frame_width: int, frame_height: int) -> bool {
        &&& 0 <= self.min_col <= self.max_col <= frame_width
        &&& 0 <= self.min_row <= self.max_row <= frame_height
    }

    /// Compute the centered clip of a `frame_width` x `frame_height` frame
    /// for a client that reported `client_width` x `client_height`
    /// characters. Recomputed from the current client size on every tick.
    pub fn compute(
        frame_width: usize,
        frame_height: usize,
        client_width: u16,
        client_height: u16,
    ) -> (v: Viewport)
        requires
            client_height >= 1,
        ensures
            v.min_col == spec_min_col(frame_width as int, client_width),
            v.max_col == spec_max_col(frame_width as int, client_width),
            v.min_row == spec_min_row(frame_height as int, client_height),
            v.max_row == spec_max_row(frame_height as int, client_height),
            v == spec_viewport(frame_width as int, frame_height as int, client_width, client_height),
            v.in_bounds(frame_width as int, frame_height as int),
    {
        let visible: usize = (client_width / 2) as usize;
        let min_col: usize = if visible >= frame_width {
            0
        } else {
            (frame_width - visible) / 2
        };
        let cols: usize = if visible >= frame_width {
            frame_width
        } else {
            visible
        };
        let max_col: usize = min_col + cols;

        let ch: usize = client_height as usize;
        let min_row: usize = if ch >= frame_height {
            0
        } else {
            (frame_height - ch) / 2
        };
        let remaining: usize = frame_height - min_row;
        let rows: usize = ch - 1;
        let max_row: usize = if rows <= remaining {
            min_row + rows
        } else {
            frame_height
        };

        Viewport { min_row, max_row, min_col, max_col }
    }
}

/// Every viewport lies inside the frame: for all valid dimensions,
/// `0 <= min_col <= max_col <= frame_width` and
/// `0 <= min_row <= max_row <= frame_height`.
pub proof fn lemma_viewport_in_bounds(
    frame_width: int,
    frame_height: int,
    client_width: u16,
    client_height: u16,
)
    requires
        frame_width >= 0,
        frame_height >= 0,
        client_height >= 1,
    ensures
        0 <= spec_min_col(frame_width, client_width),
        spec_min_col(frame_width, client_width) <= spec_max_col(frame_width, client_width),
        spec_max_col(frame_width, client_width) <= frame_width,
        0 <= spec_min_row(frame_height, client_height),
        spec_min_row(frame_height, client_height) <= spec_max_row(frame_height, client_height),
        spec_max_row(frame_height, client_height) <= frame_height,
{
}

/// A standard eighty-by-twenty-four client sees a forty-column,
/// twenty-three-row window into any frame at least that large: the first
/// emitted frame of such a session shows `max_col - min_col == 40` columns
/// and `max_row - min_row == 23` rows.
pub proof fn lemma_standard_client_window(frame_width: int, frame_height: int)
    requires
        frame_width >= 40,
        frame_height >= 23,
    ensures
        spec_max_col(frame_width, 80) - spec_min_col(frame_width, 80) == 40,
        spec_max_row(frame_height, 24) - spec_min_row(frame_height, 24) == 23,
{
}

/// Centering: a client wide enough to show every frame column
/// (`client_width / 2 >= frame_width`) is not clipped horizontally.
pub proof fn lemma_no_horizontal_clip(frame_width: int, client_width: u16)
    requires
        0 <= frame_width,
        spec_visible_cols(client_width) >= frame_width,
    ensures
        spec_min_col(frame_width, client_width) == 0,
        spec_max_col(frame_width, client_width) == frame_width,
{
}

} // verus!
