//! A single-line terminal progress bar around a writable output.
//!
//! `Progress` wraps the output, tracks a position against a fixed total, and
//! redraws the bar in place, while ordinary text lines can still be written
//! through the same handle: each such line first erases the bar, so the bar
//! is pushed down rather than corrupted. The bytes the handle sends to its
//! output are modelled, and every frame is pinned down byte for byte by
//! [`frame::frame_bytes`].
pub mod frame;
pub mod geometry;
pub mod term;
pub mod text;

use vstd::prelude::*;

verus! {

use crate::frame::build_frame;
use crate::frame::frame_bytes;
use crate::frame::push_slice;
use crate::term::clear_line_seq;
use crate::term::restore_seq;
use vstd::string::StringSliceAdditionalSpecFns;

/// The bytes that erase a displayed bar line: clear the current line, then
/// return the cursor to the saved anchor. Empty when no bar line is pending.
pub open spec fn erase_bytes(pending: bool) -> Seq<u8> {
    if pending {
        clear_line_seq() + restore_seq()
    } else {
        Seq::<u8>::empty()
    }
}

/// A progress bar wrapped around an output `W`, owning it until
/// [`Progress::finish`] hands it back.
///
/// The percentage arithmetic is meaningful only for a non-zero total, so
/// [`Progress::render`] and [`Progress::render_at`] require one; the other
/// operations accept any state.
pub struct Progress<W> {
    inner: W,
    ts: std::time::Instant,
    pos: u64,
    len: u64,
    clear: bool,
    buffer: Vec<u8>,
    log: Ghost<Seq<u8>>,
}

impl<W> Progress<W> {
    /// Every byte this handle has sent to the wrapped output.
    pub closed spec fn sent(self) -> Seq<u8> {
        self.log@
    }

    /// The current progress position.
    pub closed spec fn position(self) -> u64 {
        self.pos
    }

    /// The total the position is measured against.
    pub closed spec fn total(self) -> u64 {
        self.len
    }

    /// Whether a bar line is on screen, to be erased before ordinary text.
    pub closed spec fn pending_clear(self) -> bool {
        self.clear
    }

    /// The wrapped output.
    pub closed spec fn output(self) -> W {
        self.inner
    }
}

impl<W: std::io::Write> Progress<W> {
    /// Relies on std::io::Write::write_all: on success the whole scratch
    /// buffer was written to the output; on an error some prefix of it may
    /// have been.
    #[verifier::external_body]
    fn send_buffer(&mut self) -> (r: Result<(), std::io::Error>)
        ensures
            final(self).pos == old(self).pos,
            final(self).len == old(self).len,
            final(self).clear == old(self).clear,
            final(self).ts == old(self).ts,
            final(self).buffer == old(self).buffer,
            r is Ok ==> final(self).log@ == old(self).log@ + old(self).buffer@,
            r is Err ==> exists|k: int|
                0 <= k <= old(self).buffer@.len() && final(self).log@ == old(self).log@ + old(
                    self,
                ).buffer@.subrange(0, k),
    {
        self.inner.write_all(&self.buffer)
    }

    /// Relies on std::io::Write::write: at most `data.len()` bytes are
    /// written and the count is returned; its documentation guarantees that
    /// nothing was written when an error is returned.
    #[verifier::external_body]
    fn send(&mut self, data: &[u8]) -> (r: Result<usize, std::io::Error>)
        ensures
            final(self).pos == old(self).pos,
            final(self).len == old(self).len,
            final(self).clear == old(self).clear,
            final(self).ts == old(self).ts,
            final(self).buffer == old(self).buffer,
            r matches Ok(n) ==> n <= data@.len() && final(self).log@ == old(self).log@
                + data@.subrange(0, n as int),
            r is Err ==> final(self).log@ == old(self).log@,
    {
        self.inner.write(data)
    }

    /// Relies on std::io::Write::flush: no bytes are taken or added, buffered
    /// ones are only driven to their destination.
    #[verifier::external_body]
    fn flush_sink(&mut self) -> (r: Result<(), std::io::Error>)
        ensures
            final(self).pos == old(self).pos,
            final(self).len == old(self).len,
            final(self).clear == old(self).clear,
            final(self).ts == old(self).ts,
            final(self).buffer == old(self).buffer,
            final(self).log@ == old(self).log@,
    {
        self.inner.flush()
    }

    /// Wraps `inner`, with the given total, position zero, and the start time
    /// taken now. No byte is written.
    pub fn new(inner: W, len: u64) -> (r: Self)
        ensures
            r.position() == 0,
            r.total() == len,
            !r.pending_clear(),
            r.sent() == Seq::<u8>::empty(),
            r.output() == inner,
    {
        Progress {
            inner,
            ts: crate::term::monotonic_now(),
            pos: 0,
            len,
            clear: false,
            buffer: Vec::with_capacity(256),
            log: Ghost(Seq::empty()),
        }
    }

    /// Sets the position: a plain assignment, with no validation and no
    /// write. The position may exceed the total or fall below its old value.
    pub fn pos(&mut self, pos: u64)
        ensures
            final(self).position() == pos,
            final(self).total() == old(self).total(),
            final(self).pending_clear() == old(self).pending_clear(),
            final(self).sent() == old(self).sent(),
            final(self).output() == old(self).output(),
    {
        self.pos = pos;
    }

    /// Renders one frame for the given terminal width and elapsed seconds:
    /// exactly `frame_bytes(..)` is sent in a single write and flushed, and a
    /// clear of the bar becomes pending. On an error the position, the total
    /// and the pending clear are as they were, though a prefix of the frame
    /// may already be in the output.
    pub fn render_at(&mut self, width: u16, elapsed: u64) -> (r: Result<(), std::io::Error>)
        requires
            old(self).total() > 0,
        ensures
            final(self).position() == old(self).position(),
            final(self).total() == old(self).total(),
            r is Ok ==> final(self).sent() == old(self).sent() + frame_bytes(
                old(self).position(),
                old(self).total(),
                width,
                elapsed,
                old(self).pending_clear(),
            ) && final(self).pending_clear(),
            r is Err ==> final(self).pending_clear() == old(self).pending_clear() && exists|k: int|
                0 <= k <= frame_bytes(
                    old(self).position(),
                    old(self).total(),
                    width,
                    elapsed,
                    old(self).pending_clear(),
                ).len() && final(self).sent() == old(self).sent() + frame_bytes(
                    old(self).position(),
                    old(self).total(),
                    width,
                    elapsed,
                    old(self).pending_clear(),
                ).subrange(0, k),
    {
        build_frame(&mut self.buffer, self.pos, self.len, width, elapsed, self.clear);
        let ghost frame = self.buffer@;
        match self.send_buffer() {
            Ok(()) => {
                match self.flush_sink() {
                    Ok(()) => {
                        self.clear = true;
                        Ok(())
                    },
                    Err(e) => {
                        proof {
                            let k = frame.len() as int;
                            assert(frame.subrange(0, k) =~= frame);
                            assert(self.sent() == old(self).sent() + frame_bytes(
                                old(self).position(),
                                old(self).total(),
                                width,
                                elapsed,
                                old(self).pending_clear(),
                            ).subrange(0, k));
                        }
                        Err(e)
                    },
                }
            },
            Err(e) => {
                proof {
                    let k = choose|k: int|
                        0 <= k <= frame.len() && self.log@ == old(self).log@ + frame.subrange(
                            0,
                            k,
                        );
                    assert(self.sent() == old(self).sent() + frame_bytes(
                        old(self).position(),
                        old(self).total(),
                        width,
                        elapsed,
                        old(self).pending_clear(),
                    ).subrange(0, k));
                }
                Err(e)
            },
        }
    }

    /// Renders one frame at the width the attached terminal reports now and
    /// the whole seconds elapsed since construction. A failure of the width
    /// query aborts the render before anything is written.
    pub fn render(&mut self) -> (r: Result<(), std::io::Error>)
        requires
            old(self).total() > 0,
        ensures
            final(self).position() == old(self).position(),
            final(self).total() == old(self).total(),
            r is Ok ==> final(self).pending_clear() && exists|width: u16, elapsed: u64|
                final(self).sent() == old(self).sent() + frame_bytes(
                    old(self).position(),
                    old(self).total(),
                    width,
                    elapsed,
                    old(self).pending_clear(),
                ),
            r is Err ==> final(self).pending_clear() == old(self).pending_clear() && exists|
                width: u16,
                elapsed: u64,
                k: int,
            |
                0 <= k <= frame_bytes(
                    old(self).position(),
                    old(self).total(),
                    width,
                    elapsed,
                    old(self).pending_clear(),
                ).len() && final(self).sent() == old(self).sent() + frame_bytes(
                    old(self).position(),
                    old(self).total(),
                    width,
                    elapsed,
                    old(self).pending_clear(),
                ).subrange(0, k),
    {
        let width = match crate::term::terminal_cols() {
            Ok(width) => width,
            Err(e) => {
                proof {
                    assert(frame_bytes(
                        self.position(),
                        self.total(),
                        0u16,
                        0u64,
                        self.pending_clear(),
                    ).subrange(0, 0) =~= Seq::<u8>::empty());
                    assert(self.sent() + Seq::<u8>::empty() =~= self.sent());
                }
                return Err(e);
            },
        };
        let elapsed = crate::term::elapsed_whole_secs(&self.ts);
        self.render_at(width, elapsed)
    }

    /// Writes one ordinary text line through the handle. When a bar line is
    /// on screen it is erased first: the clear-line and restore-cursor
    /// sequences go out immediately before the text, and the pending clear is
    /// dropped. The text itself is sent unchanged.
    pub fn write_str(&mut self, s: &str) -> (r: Result<(), std::io::Error>)
        ensures
            final(self).position() == old(self).position(),
            final(self).total() == old(self).total(),
            r is Ok ==> final(self).sent() == old(self).sent() + erase_bytes(
                old(self).pending_clear(),
            ) + s.spec_bytes() && !final(self).pending_clear(),
            r is Err ==> final(self).pending_clear() == old(self).pending_clear() && exists|k: int|
                0 <= k <= (erase_bytes(old(self).pending_clear()) + s.spec_bytes()).len()
                    && final(self).sent() == old(self).sent() + (erase_bytes(
                    old(self).pending_clear(),
                ) + s.spec_bytes()).subrange(0, k),
    {
        self.buffer.clear();
        if self.clear {
            push_slice(&mut self.buffer, crate::term::clear_line());
            push_slice(&mut self.buffer, crate::term::restore_cursor());
        }
        push_slice(&mut self.buffer, s.as_bytes());
        proof {
            assert(self.buffer@ =~= erase_bytes(old(self).pending_clear()) + s.spec_bytes());
        }
        let ghost payload = self.buffer@;
        match self.send_buffer() {
            Ok(()) => {
                self.clear = false;
                proof {
                    assert(old(self).sent() + payload =~= old(self).sent() + erase_bytes(
                        old(self).pending_clear(),
                    ) + s.spec_bytes());
                }
                Ok(())
            },
            Err(e) => {
                proof {
                    let k = choose|k: int|
                        0 <= k <= payload.len() && self.log@ == old(self).log@ + payload.subrange(
                            0,
                            k,
                        );
                    assert(self.sent() == old(self).sent() + (erase_bytes(
                        old(self).pending_clear(),
                    ) + s.spec_bytes()).subrange(0, k));
                }
                Err(e)
            },
        }
    }

    /// Writes raw bytes straight through to the output, with no interception:
    /// no clear is emitted and the pending clear stays as it is. Returns how
    /// many bytes were taken, as the output reports it.
    pub fn write(&mut self, data: &[u8]) -> (r: Result<usize, std::io::Error>)
        ensures
            final(self).position() == old(self).position(),
            final(self).total() == old(self).total(),
            final(self).pending_clear() == old(self).pending_clear(),
            r matches Ok(n) ==> n <= data@.len() && final(self).sent() == old(self).sent()
                + data@.subrange(0, n as int),
            r is Err ==> final(self).sent() == old(self).sent(),
    {
        self.send(data)
    }

    /// Flushes the wrapped output; nothing is added to the stream.
    pub fn flush(&mut self) -> (r: Result<(), std::io::Error>)
        ensures
            final(self).position() == old(self).position(),
            final(self).total() == old(self).total(),
            final(self).pending_clear() == old(self).pending_clear(),
            final(self).sent() == old(self).sent(),
    {
        self.flush_sink()
    }

    /// Hands the wrapped output back to the caller. Every render has already
    /// been flushed, so nothing of this handle remains in flight.
    pub fn finish(self) -> (r: W)
        ensures
            r == self.output(),
    {
        self.inner
    }
}

} // verus!
