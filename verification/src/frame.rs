//! One rendered frame: restore the anchor when redrawing, save the anchor,
//! the bar glyphs, then the textual suffix with counts, percentage and
//! throughput. The whole frame is pinned down, byte for byte, as a function
//! of position, total, terminal width and elapsed seconds.
use vstd::prelude::*;

verus! {

use crate::geometry;
use crate::term;
use crate::text;

/// The UTF-8 bytes of one filled bar cell.
pub open spec fn filled_glyph() -> Seq<u8> {
    seq![0xe2u8, 0x96u8, 0x88u8]
}

/// The UTF-8 bytes of one empty bar cell.
pub open spec fn empty_glyph() -> Seq<u8> {
    seq![0xe2u8, 0x96u8, 0x91u8]
}

/// `n` repetitions of the glyph `g`.
pub open spec fn glyph_run(g: Seq<u8>, n: nat) -> Seq<u8>
    decreases n,
{
    if n == 0 {
        Seq::empty()
    } else {
        glyph_run(g, (n - 1) as nat) + g
    }
}

/// The textual suffix of a frame:
/// ` {position}/{total} ({percentage}%) - {throughput}/s`,
/// with the counts and the throughput in human-readable units.
pub open spec fn suffix_bytes(position: u64, total: u64, elapsed: u64) -> Seq<u8>
    recommends
        total > 0,
{
    seq![0x20u8] + term::human_bytes(position) + seq![0x2fu8] + term::human_bytes(total)
        + seq![0x20u8, 0x28u8] + text::pct_of(geometry::spec_percent_centi(position, total))
        + seq![0x25u8, 0x29u8, 0x20u8, 0x2du8, 0x20u8]
        + term::human_bytes(geometry::spec_throughput(position, elapsed)) + seq![0x2fu8, 0x73u8]
}

/// A whole frame. When `redraw` is set a restore-cursor sequence leads, so
/// that the frame overdraws the one before it; the anchor is then saved anew.
pub open spec fn frame_bytes(
    position: u64,
    total: u64,
    width: u16,
    elapsed: u64,
    redraw: bool,
) -> Seq<u8>
    recommends
        total > 0,
{
    (if redraw {
        term::restore_seq()
    } else {
        Seq::<u8>::empty()
    }) + term::save_seq()
        + glyph_run(filled_glyph(), geometry::spec_filled(width, position, total) as nat)
        + glyph_run(empty_glyph(), geometry::spec_empty(width, position, total) as nat)
        + suffix_bytes(position, total, elapsed)
}

/// Idempotent geometry: the elapsed time enters a frame only through the
/// displayed throughput, so frames rendered for the same position, total,
/// width and redraw state are byte-identical whenever the throughput comes
/// out the same — the throughput field is the only thing that can change
/// between two renders with no position change.
pub proof fn lemma_frame_same_throughput(
    position: u64,
    total: u64,
    width: u16,
    elapsed_a: u64,
    elapsed_b: u64,
    redraw: bool,
)
    requires
        total > 0,
        geometry::spec_throughput(position, elapsed_a) == geometry::spec_throughput(
            position,
            elapsed_b,
        ),
    ensures
        frame_bytes(position, total, width, elapsed_a, redraw) == frame_bytes(
            position,
            total,
            width,
            elapsed_b,
            redraw,
        ),
{
}

/// A redrawn frame is the restore-cursor sequence followed by exactly the
/// frame a first draw would produce: rendering twice in a row with no
/// position change repeats the same bytes at the same anchor.
pub proof fn lemma_redraw_same_frame(position: u64, total: u64, width: u16, elapsed: u64)
    requires
        total > 0,
    ensures
        frame_bytes(position, total, width, elapsed, true) == term::restore_seq() + frame_bytes(
            position,
            total,
            width,
            elapsed,
            false,
        ),
{
    assert(frame_bytes(position, total, width, elapsed, true) =~= term::restore_seq()
        + frame_bytes(position, total, width, elapsed, false));
}

/// Appends a byte slice to the scratch buffer.
pub(crate) fn push_slice(out: &mut Vec<u8>, src: &[u8])
    ensures
        final(out)@ == old(out)@ + src@,
{
    let mut i: usize = 0;
    while i < src.len()
        invariant
            i <= src@.len(),
            out@ == old(out)@ + src@.subrange(0, i as int),
        decreases src@.len() - i,
    {
        out.push(src[i]);
        proof {
            assert(out@ =~= old(out)@ + src@.subrange(0, i + 1 as int));
        }
        i = i + 1;
    }
    proof {
        assert(src@.subrange(0, src@.len() as int) =~= src@);
    }
}

/// Appends a run of `n` bar cells, filled or empty.
fn push_glyph_run(out: &mut Vec<u8>, n: u16, filled: bool)
    ensures
        final(out)@ == old(out)@ + glyph_run(
            if filled {
                filled_glyph()
            } else {
                empty_glyph()
            },
            n as nat,
        ),
{
    let ghost g: Seq<u8> = if filled {
        filled_glyph()
    } else {
        empty_glyph()
    };
    let last: u8 = if filled {
        0x88
    } else {
        0x91
    };
    let mut i: u16 = 0;
    while i < n
        invariant
            i <= n,
            g == (if filled {
                filled_glyph()
            } else {
                empty_glyph()
            }),
            last == (if filled {
                0x88u8
            } else {
                0x91u8
            }),
            out@ == old(out)@ + glyph_run(g, i as nat),
        decreases n - i,
    {
        out.push(0xe2);
        out.push(0x96);
        out.push(last);
        proof {
            assert(out@ =~= old(out)@ + glyph_run(g, (i + 1) as nat));
        }
        i = i + 1;
    }
}

/// Builds one frame into the scratch buffer, which is cleared first; on
/// return the buffer holds exactly the frame, ready for a single write-out.
pub fn build_frame(
    out: &mut Vec<u8>,
    position: u64,
    total: u64,
    width: u16,
    elapsed: u64,
    redraw: bool,
)
    requires
        total > 0,
    ensures
        final(out)@ == frame_bytes(position, total, width, elapsed, redraw),
{
    out.clear();
    if redraw {
        push_slice(out, term::restore_cursor());
    }
    push_slice(out, term::save_cursor());
    let filled = geometry::filled_cells(width, position, total);
    let empty = geometry::empty_cells(width, position, total);
    push_glyph_run(out, filled, true);
    push_glyph_run(out, empty, false);
    out.push(0x20);
    let pos_text = term::format_size(position);
    push_slice(out, pos_text.as_slice());
    out.push(0x2f);
    let total_text = term::format_size(total);
    push_slice(out, total_text.as_slice());
    out.push(0x20);
    out.push(0x28);
    text::push_percent(out, geometry::percent_centi(position, total));
    out.push(0x25);
    out.push(0x29);
    out.push(0x20);
    out.push(0x2d);
    out.push(0x20);
    let rate_text = term::format_size(geometry::throughput(position, elapsed));
    push_slice(out, rate_text.as_slice());
    out.push(0x2f);
    out.push(0x73);
    proof {
        assert(out@ =~= frame_bytes(position, total, width, elapsed, redraw));
    }
}

} // verus!
