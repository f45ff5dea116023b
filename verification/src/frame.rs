//! Frame assembly and per-session animation bookkeeping.
//!
//! One tick of the animation loop turns the current frame into the byte
//! buffer a transport writes: an optional clear-screen prefix, then every
//! frame row visible in the client's viewport, each visible cell encoded as
//! its color escape sequence and each row terminated by a newline. The
//! `Streamer` tracks the cyclic frame index and the optional tick limit;
//! the fixed-rate clock and the transport writes live outside the library.

use vstd::prelude::*;
use vstd::arithmetic::div_mod::{lemma_add_mod_noop, lemma_mod_multiples_vanish, lemma_small_mod};
use crate::color::{color_cell, is_art_char, render_color};
use crate::viewport::{spec_viewport, Viewport};

verus! {

/// The clear-screen prefix sent before a frame when clearing is on:
/// `ESC [ 2 J` (erase display) then `ESC [ 1 ; 1 H` (home the cursor).
pub open spec fn clear_screen_bytes() -> Seq<u8> {
    seq![27u8, 91u8, 50u8, 74u8, 27u8, 91u8, 49u8, 59u8, 49u8, 72u8]
}

/// Emit the clear-screen prefix.
pub fn clear_screen() -> (r: Vec<u8>)
    ensures
        r@ == clear_screen_bytes(),
{
    let mut r: Vec<u8> = Vec::new();
    r.push(27);
    r.push(91);
    r.push(50);
    r.push(74);
    r.push(27);
    r.push(91);
    r.push(49);
    r.push(59);
    r.push(49);
    r.push(72);
    proof {
        assert(r@ =~= clear_screen_bytes());
    }
    r
}

/// A frame as the mathematical grid of its art characters.
pub open spec fn frame_view(frame: Seq<Vec<u8>>) -> Seq<Seq<u8>> {
    frame.map_values(|row: Vec<u8>| row@)
}

/// A well-formed frame: at least one row, every row of the same width, and
/// every cell a character of the art alphabet. The animation data is a
/// static asset validated up front, so this holds of every frame streamed.
pub open spec fn frame_ok(f: Seq<Seq<u8>>) -> bool {
    &&& f.len() >= 1
    &&& forall|y: int| 0 <= y < f.len() ==> (#[trigger] f[y]).len() == f[0].len()
    &&& forall|y: int, x: int|
        0 <= y < f.len() && 0 <= x < f[0].len() ==> is_art_char(#[trigger] f[y][x])
}

/// Escape text of the cells of `row` in columns `[min_col, x)`.
pub open spec fn row_render(row: Seq<u8>, min_col: int, x: int) -> Seq<u8>
    decreases x - min_col,
{
    if x <= min_col {
        Seq::empty()
    } else {
        row_render(row, min_col, x - 1) + color_cell(row[x - 1])
    }
}

/// One visible row: its visible cells followed by a newline.
pub open spec fn row_line(row: Seq<u8>, min_col: int, max_col: int) -> Seq<u8> {
    row_render(row, min_col, max_col) + seq![10u8]
}

/// The visible rows `[min_row, y)` of a frame, each rendered and
/// newline-terminated.
pub open spec fn rows_render(f: Seq<Seq<u8>>, min_row: int, y: int, min_col: int, max_col: int) -> Seq<u8>
    decreases y - min_row,
{
    if y <= min_row {
        Seq::empty()
    } else {
        rows_render(f, min_row, y - 1, min_col, max_col) + row_line(f[y - 1], min_col, max_col)
    }
}

/// Everything one tick sends for a frame: the clear-screen prefix when
/// clearing is on, then every row of the frame visible in the viewport.
pub open spec fn frame_render(f: Seq<Seq<u8>>, v: Viewport, clear: bool) -> Seq<u8> {
    (if clear {
        clear_screen_bytes()
    } else {
        Seq::<u8>::empty()
    }) + rows_render(f, v.min_row as int, v.max_row as int, v.min_col as int, v.max_col as int)
}

/// Render the visible cells of one row — columns `[min_col, max_col)`, each
/// encoded as its color escape — without the row terminator.
pub fn render_row(row: &Vec<u8>, min_col: usize, max_col: usize) -> (out: Vec<u8>)
    requires
        min_col <= max_col <= row@.len(),
        forall|x: int| min_col <= x < max_col ==> is_art_char(#[trigger] row@[x]),
    ensures
        out@ == row_render(row@, min_col as int, max_col as int),
{
    let mut out: Vec<u8> = Vec::new();
    let mut x: usize = min_col;
    proof {
        assert(out@ =~= row_render(row@, min_col as int, x as int));
    }
    while x < max_col
        invariant
            min_col <= x <= max_col <= row@.len(),
            forall|k: int| min_col <= k < max_col ==> is_art_char(#[trigger] row@[k]),
            out@ == row_render(row@, min_col as int, x as int),
        decreases max_col - x,
    {
        let mut cell = render_color(row[x]);
        out.append(&mut cell);
        proof {
            assert(out@ =~= row_render(row@, min_col as int, x as int + 1));
        }
        x = x + 1;
    }
    out
}

/// Assemble the bytes one tick sends: compute the centered viewport of the
/// frame for the client's current size, encode every visible cell, terminate
/// every visible row, and prepend the clear-screen prefix when asked to.
pub fn build_frame(frame: &Vec<Vec<u8>>, client_width: u16, client_height: u16, clear: bool) -> (out: Vec<u8>)
    requires
        frame_ok(frame_view(frame@)),
        client_height >= 1,
    ensures
        out@ == frame_render(
            frame_view(frame@),
            spec_viewport(frame@[0]@.len() as int, frame@.len() as int, client_width, client_height),
            clear,
        ),
{
    let ghost f: Seq<Seq<u8>> = frame_view(frame@);
    let height: usize = frame.len();
    let width: usize = frame[0].len();
    let v: Viewport = Viewport::compute(width, height, client_width, client_height);
    let mut out: Vec<u8> = Vec::new();
    if clear {
        let mut prefix_bytes = clear_screen();
        out.append(&mut prefix_bytes);
    }
    let ghost prefix: Seq<u8> = out@;
    let mut y: usize = v.min_row;
    proof {
        assert(out@ =~= prefix + rows_render(f, v.min_row as int, y as int, v.min_col as int, v.max_col as int));
    }
    while y < v.max_row
        invariant
            frame_ok(f),
            f == frame_view(frame@),
            height == frame@.len(),
            width == f[0].len(),
            v.in_bounds(width as int, height as int),
            v.min_row <= y <= v.max_row,
            out@ == prefix + rows_render(f, v.min_row as int, y as int, v.min_col as int, v.max_col as int),
        decreases v.max_row - y,
    {
        let row: &Vec<u8> = &frame[y];
        let ghost rows_done: Seq<u8> = out@;
        proof {
            assert(f[y as int].len() == f[0].len());
            assert forall|x: int| v.min_col <= x < v.max_col implies is_art_char(
                row@[x],
            ) by {
                assert(is_art_char(f[y as int][x]));
            }
        }
        let mut line = render_row(row, v.min_col, v.max_col);
        out.append(&mut line);
        out.push(10);
        proof {
            assert(out@ =~= rows_done + row_line(row@, v.min_col as int, v.max_col as int));
            assert(out@ =~= prefix + rows_render(f, v.min_row as int, y as int + 1, v.min_col as int, v.max_col as int));
        }
        y = y + 1;
    }
    out
}

/// Validate one frame of the animation data up front: nonempty, every row
/// of the same width, every cell in the art alphabet. A frame that fails
/// here is a corrupted asset; checking the whole animation at startup keeps
/// the per-tick render free of that concern.
pub fn check_frame(frame: &Vec<Vec<u8>>) -> (r: bool)
    ensures
        r == frame_ok(frame_view(frame@)),
{
    let ghost f: Seq<Seq<u8>> = frame_view(frame@);
    let height: usize = frame.len();
    if height == 0 {
        return false;
    }
    let width: usize = frame[0].len();
    let mut y: usize = 0;
    while y < height
        invariant
            f == frame_view(frame@),
            height == f.len() >= 1,
            width == f[0].len(),
            y <= height,
            forall|j: int| 0 <= j < y ==> (#[trigger] f[j]).len() == width,
            forall|j: int, x: int| 0 <= j < y && 0 <= x < width ==> is_art_char(#[trigger] f[j][x]),
        decreases height - y,
    {
        let row: &Vec<u8> = &frame[y];
        if row.len() != width {
            proof {
                assert((f[y as int]).len() != f[0].len());
            }
            return false;
        }
        let mut x: usize = 0;
        while x < width
            invariant
                f == frame_view(frame@),
                y < height == f.len(),
                row@ == f[y as int],
                width == row@.len(),
                x <= width,
                forall|k: int| 0 <= k < x ==> is_art_char(#[trigger] row@[k]),
            decreases width - x,
        {
            if !crate::color::art_char(row[x]) {
                return false;
            }
            x = x + 1;
        }
        y = y + 1;
    }
    true
}

/// Per-session animation bookkeeping: which frame the next tick shows, how
/// many ticks have been served, and the optional tick limit the session
/// stops at.
pub struct Streamer {
    /// Number of frames in the animation; the index wraps at this count.
    pub frame_count: usize,
    /// Frame the next tick shows; always below `frame_count`.
    pub frame_index: usize,
    /// Ticks served since the session started.
    pub ticks: usize,
    /// Stop after this many ticks, if set.
    pub limit: Option<usize>,
}

impl Streamer {
    /// The index stays inside the animation.
    pub open spec fn wf(self) -> bool {
        self.frame_count >= 1 && self.frame_index < self.frame_count
    }

    /// A fresh session: at the first frame, no ticks served yet.
    pub fn new(frame_count: usize, limit: Option<usize>) -> (s: Streamer)
        requires
            frame_count >= 1,
        ensures
            s.wf(),
            s.frame_count == frame_count,
            s.frame_index == 0,
            s.ticks == 0,
            s.limit == limit,
    {
        Streamer { frame_count, frame_index: 0, ticks: 0, limit }
    }

    /// Step past one served tick: the frame index advances by one, wrapping
    /// at the end of the animation, and the tick count grows by one.
    pub fn advance(&mut self)
        requires
            old(self).wf(),
            old(self).ticks < usize::MAX,
        ensures
            final(self).wf(),
            final(self).frame_index as int == (old(self).frame_index + 1) % (old(self).frame_count as int),
            final(self).ticks == old(self).ticks + 1,
            final(self).frame_count == old(self).frame_count,
            final(self).limit == old(self).limit,
    {
        self.frame_index = (self.frame_index + 1) % self.frame_count;
        self.ticks = self.ticks + 1;
    }

    /// The session has served its configured number of ticks and stops; a
    /// session without a limit never stops on its own.
    pub fn finished(&self) -> (r: bool)
        ensures
            r == match self.limit {
                Some(l) => self.ticks >= l,
                None => false,
            },
    {
        match self.limit {
            Some(l) => self.ticks >= l,
            None => false,
        }
    }
}

/// The frame index after `k` ticks from `start`, each tick advancing by one
/// and wrapping at `count` — the shape of the loop every transport runs.
pub open spec fn index_after_ticks(start: int, k: nat, count: int) -> int
    decreases k,
{
    if k == 0 {
        start
    } else {
        (index_after_ticks(start, (k - 1) as nat, count) + 1) % count
    }
}

/// Advancing tick by tick lands on the wrapped sum: after `k` ticks from
/// `start` the frame index is `(start + k) % count`.
pub proof fn lemma_index_after_ticks(start: int, k: nat, count: int)
    requires
        count >= 1,
        0 <= start < count,
    ensures
        index_after_ticks(start, k, count) == (start + k) % count,
    decreases k,
{
    if k == 0 {
        lemma_small_mod(start as nat, count as nat);
    } else {
        lemma_index_after_ticks(start, (k - 1) as nat, count);
        if count == 1 {
            assert(index_after_ticks(start, k, count) == (start + k) % count);
        } else {
            lemma_add_mod_noop(start + k - 1, 1, count);
            lemma_small_mod(1nat, count as nat);
            lemma_small_mod((start + k - 1) as nat % count as nat, count as nat);
            assert(((start + k - 1) % count) % count == (start + k - 1) % count);
            assert(index_after_ticks(start, k, count) == (start + k) % count);
        }
    }
}

/// Frame-index cycling: serving exactly as many ticks as the animation has
/// frames returns the frame index to its starting value.
pub proof fn lemma_frame_cycle(start: int, count: int)
    requires
        count >= 1,
        0 <= start < count,
    ensures
        index_after_ticks(start, count as nat, count) == start,
{
    lemma_index_after_ticks(start, count as nat, count);
    lemma_mod_multiples_vanish(1, start, count);
    lemma_small_mod(start as nat, count as nat);
}

} // verus!
