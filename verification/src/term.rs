//! The trusted boundary: the clock, the terminal, and the human-readable
//! byte-count formatter. Everything here either declares an outside type or
//! wraps one outside call and states no more of it than its source shows.
use vstd::prelude::*;

verus! {

#[verifier::external_type_specification]
#[verifier::external_body]
pub struct ExInstant(std::time::Instant);

#[verifier::external_type_specification]
#[verifier::external_body]
pub struct ExIoError(std::io::Error);

/// The save-cursor control sequence, `ESC [ s`.
pub open spec fn save_seq() -> Seq<u8> {
    seq![0x1bu8, 0x5bu8, 0x73u8]
}

/// The restore-cursor control sequence, `ESC [ u`.
pub open spec fn restore_seq() -> Seq<u8> {
    seq![0x1bu8, 0x5bu8, 0x75u8]
}

/// The clear-current-line control sequence, `ESC [ 2 K`.
pub open spec fn clear_line_seq() -> Seq<u8> {
    seq![0x1bu8, 0x5bu8, 0x32u8, 0x4bu8]
}

/// The human-readable rendering of a byte count, as the `bytesize` crate
/// writes it: a deterministic function of the count alone.
pub uninterp spec fn human_bytes(n: u64) -> Seq<u8>;

/// Relies on std::time::Instant::now: an opaque reading of the monotonic
/// clock. Nothing is promised of it.
#[verifier::external_body]
pub(crate) fn monotonic_now() -> std::time::Instant {
    std::time::Instant::now()
}

/// Relies on std::time::Instant::elapsed and std::time::Duration::as_secs:
/// the whole seconds since `start`, read from the monotonic clock. The value
/// depends on when the call runs, so nothing is promised of it.
#[verifier::external_body]
pub(crate) fn elapsed_whole_secs(start: &std::time::Instant) -> u64 {
    start.elapsed().as_secs()
}

/// Relies on termion::terminal_size: the column count of the attached
/// terminal, or an error when the process has none. The value depends on the
/// environment, so nothing is promised of it.
#[verifier::external_body]
pub(crate) fn terminal_cols() -> Result<u16, std::io::Error> {
    termion::terminal_size().map(|size| size.0)
}

/// Relies on the Display impl of bytesize::ByteSize: a pure rendering of the
/// count, here given the name `human_bytes`. Its source shows that a count
/// below 1024 is written as the decimal digits, a space, and `B`.
#[verifier::external_body]
pub(crate) fn format_size(n: u64) -> (r: Vec<u8>)
    ensures
        r@ == human_bytes(n),
        n < 1024 ==> r@ == crate::text::dec_of(n as nat) + seq![0x20u8, 0x42u8],
{
    format!("{}", bytesize::ByteSize(n)).into_bytes()
}

/// Relies on termion::cursor::Save's AsRef<[u8]>: the save-cursor sequence.
#[verifier::external_body]
pub(crate) fn save_cursor() -> (r: &'static [u8])
    ensures
        r@ == save_seq(),
{
    <termion::cursor::Save as AsRef<[u8]>>::as_ref(&termion::cursor::Save)
}

/// Relies on termion::cursor::Restore's AsRef<[u8]>: the restore-cursor
/// sequence.
#[verifier::external_body]
pub(crate) fn restore_cursor() -> (r: &'static [u8])
    ensures
        r@ == restore_seq(),
{
    <termion::cursor::Restore as AsRef<[u8]>>::as_ref(&termion::cursor::Restore)
}

/// Relies on termion::clear::CurrentLine's AsRef<[u8]>: the clear-line
/// sequence.
#[verifier::external_body]
pub(crate) fn clear_line() -> (r: &'static [u8])
    ensures
        r@ == clear_line_seq(),
{
    <termion::clear::CurrentLine as AsRef<[u8]>>::as_ref(&termion::clear::CurrentLine)
}

} // verus!
