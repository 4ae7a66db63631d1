//! Integer geometry of one rendered frame: how many columns the bar may use,
//! how many of them are filled, and the displayed percentage and throughput.
//!
//! The suffix after the bar (counts, percentage, throughput) is budgeted at 45
//! columns. A terminal of 45 columns or fewer leaves no room for the bar: the
//! chosen policy is to clamp the bar to zero cells and render the suffix alone.
use vstd::prelude::*;

verus! {

/// Columns reserved for the textual suffix after the bar.
pub const SUFFIX_COLS: u16 = 45;

/// The number of bar cells a `width`-column terminal leaves after the suffix
/// budget; zero when the terminal is too narrow for any bar.
pub open spec fn spec_bar_width(width: u16) -> u16 {
    if width > SUFFIX_COLS {
        (width - SUFFIX_COLS) as u16
    } else {
        0
    }
}

/// The number of filled cells: `bar * position / total`, rounded up, and
/// clamped to the bar width once the position passes the total.
pub open spec fn spec_filled(width: u16, position: u64, total: u64) -> u16
    recommends
        total > 0,
{
    let bar = spec_bar_width(width) as int;
    let raw = (bar * position + total - 1) / total as int;
    if raw > bar {
        spec_bar_width(width)
    } else {
        raw as u16
    }
}

/// The number of empty cells: whatever the filled cells leave of the bar.
pub open spec fn spec_empty(width: u16, position: u64, total: u64) -> u16
    recommends
        total > 0,
{
    (spec_bar_width(width) - spec_filled(width, position, total)) as u16
}

/// The displayed percentage in hundredths of a percent: `position / total`,
/// scaled to 10000 and rounded to the nearest hundredth, half away from zero.
/// It is not clamped: a position beyond the total reads beyond 10000.
pub open spec fn spec_percent_centi(position: u64, total: u64) -> nat
    recommends
        total > 0,
{
    ((position * 20000 + total) / (2 * total as int)) as nat
}

/// Throughput in bytes per second: `position / elapsed`, and zero while no
/// whole second has elapsed.
pub open spec fn spec_throughput(position: u64, elapsed: u64) -> u64 {
    if elapsed > 0 {
        (position / elapsed) as u64
    } else {
        0
    }
}

/// The filled cells never exceed the bar width.
pub proof fn lemma_filled_le_bar(width: u16, position: u64, total: u64)
    requires
        total > 0,
    ensures
        spec_filled(width, position, total) <= spec_bar_width(width),
{
    let bar = spec_bar_width(width) as int;
    let raw = (bar * position + total - 1) / total as int;
    if raw <= bar {
        assert(raw >= 0) by {
            assert(bar * position >= 0) by (nonlinear_arith)
                requires
                    bar >= 0,
                    position >= 0,
            ;
            assert((bar * position + total - 1) / total as int >= 0) by (nonlinear_arith)
                requires
                    bar * position + total - 1 >= 0,
                    total > 0,
            ;
        }
    }
}

/// Bar width conservation: the filled and the empty cells together make up
/// the whole bar, `spec_bar_width(width)` cells exactly.
pub proof fn lemma_bar_conservation(width: u16, position: u64, total: u64)
    requires
        total > 0,
    ensures
        spec_filled(width, position, total) + spec_empty(width, position, total)
            == spec_bar_width(width),
{
    lemma_filled_le_bar(width, position, total);
}

/// Overflow tolerance: once the position passes the total, the bar reads as
/// completely filled, and the empty cells are zero, never negative.
pub proof fn lemma_overflow_fills_bar(width: u16, position: u64, total: u64)
    requires
        total > 0,
        position > total,
    ensures
        spec_filled(width, position, total) == spec_bar_width(width),
        spec_empty(width, position, total) == 0,
{
    let bar = spec_bar_width(width) as int;
    let raw = (bar * position + total - 1) / total as int;
    if bar > 0 {
        assert(raw > bar) by (nonlinear_arith)
            requires
                raw == (bar * position + total - 1) / total as int,
                position > total,
                total > 0,
                bar > 0,
        ;
    } else {
        assert(raw == (total - 1) / total as int);
        assert(raw == 0) by (nonlinear_arith)
            requires
                raw == (total - 1) / total as int,
                total > 0,
        ;
    }
}

/// Narrow-terminal guard: at 45 columns or fewer the bar clamps to zero
/// cells, so neither the filled nor the empty count can underflow.
pub proof fn lemma_narrow_terminal(width: u16, position: u64, total: u64)
    requires
        total > 0,
        width <= SUFFIX_COLS,
    ensures
        spec_bar_width(width) == 0,
        spec_filled(width, position, total) == 0,
        spec_empty(width, position, total) == 0,
{
    lemma_filled_le_bar(width, position, total);
}

/// Zero-elapsed throughput: before one whole second has elapsed the reported
/// throughput is zero, whatever the position.
pub proof fn lemma_zero_elapsed_throughput(position: u64)
    ensures
        spec_throughput(position, 0) == 0,
{
}

/// The bar cells a `width`-column terminal grants, clamped to zero on a
/// terminal too narrow for any bar.
pub fn bar_width(width: u16) -> (r: u16)
    ensures
        r == spec_bar_width(width),
{
    if width > SUFFIX_COLS {
        width - SUFFIX_COLS
    } else {
        0
    }
}

/// The filled cell count for one frame.
pub fn filled_cells(width: u16, position: u64, total: u64) -> (r: u16)
    requires
        total > 0,
    ensures
        r == spec_filled(width, position, total),
{
    let bar = bar_width(width);
    proof {
        vstd::arithmetic::mul::lemma_mul_upper_bound(
            bar as int,
            u16::MAX as int,
            position as int,
            u64::MAX as int,
        );
    }
    let num: u128 = bar as u128 * position as u128;
    let raw: u128 = (num + total as u128 - 1) / total as u128;
    if raw > bar as u128 {
        bar
    } else {
        raw as u16
    }
}

/// The empty cell count for one frame.
pub fn empty_cells(width: u16, position: u64, total: u64) -> (r: u16)
    requires
        total > 0,
    ensures
        r == spec_empty(width, position, total),
{
    proof {
        lemma_filled_le_bar(width, position, total);
    }
    bar_width(width) - filled_cells(width, position, total)
}

/// The displayed percentage in hundredths of a percent.
pub fn percent_centi(position: u64, total: u64) -> (r: u128)
    requires
        total > 0,
    ensures
        r == spec_percent_centi(position, total),
{
    (position as u128 * 20000 + total as u128) / (2 * total as u128)
}

/// The displayed throughput in bytes per second.
pub fn throughput(position: u64, elapsed: u64) -> (r: u64)
    ensures
        r == spec_throughput(position, elapsed),
{
    if elapsed > 0 {
        position / elapsed
    } else {
        0
    }
}

} // verus!
