//! The spinner lifecycle: a configured spinner, the render loop's state
//! machine, and the stop handle.

use vstd::prelude::*;
use crate::frames::{
    finished_bytes, frames_bytes, glyph_at, GLYPH_BACKSLASH, GLYPH_BAR, GLYPH_DASH, GLYPH_SLASH,
    RETREAT,
};

verus! {

/// A configured, idle spinner: the pause between frames, in milliseconds.
/// Any interval, zero included, is accepted; a zero interval simply spins as
/// fast as the embedding program's scheduler allows.
pub struct Spinner {
    pub frame_interval_ms: u64,
}

/// Handle to a running spinner, held by the caller. It is the only way to
/// request termination, and `stop` consumes it, so stopping a spinner twice
/// is ruled out by ownership rather than by a runtime check.
pub struct StartedSpinner {
    stop_pending: bool,
}

/// The render loop's state: how many full frames it has put on the wire, and
/// whether it has observed the stop request and written the closing erase.
/// The loop itself is driven by the embedding program, which owns the sink
/// for the task's whole lifetime; each turn it polls the one-shot stop
/// signal, hands the poll's outcome to `step`, writes the returned bytes,
/// flushes, and sleeps for the frame interval unless the task is finished.
pub struct RenderTask {
    pub frame_interval_ms: u64,
    pub frames_rendered: u64,
    pub finished: bool,
}

impl Spinner {
    pub open spec fn interval_ms(self) -> u64 {
        self.frame_interval_ms
    }

    /// Configure a spinner. No validation and no side effects: every
    /// interval is legal.
    pub fn new(frame_interval_ms: u64) -> (s: Spinner)
        ensures
            s.interval_ms() == frame_interval_ms,
    {
        Spinner { frame_interval_ms }
    }

    /// Consume the configured spinner and hand out the two sides of a
    /// running one: the caller's stop handle and the render loop's initial
    /// state, which has rendered nothing yet. The embedding program runs the
    /// loop concurrently and delivers the handle's stop request through a
    /// one-shot signal that the loop polls once per turn.
    pub fn start(self) -> (r: (StartedSpinner, RenderTask))
        ensures
            r.1.interval_ms() == self.interval_ms(),
            r.1.frames() == 0,
            !r.1.is_finished(),
            r.1.written() == Seq::<u8>::empty(),
    {
        let handle = StartedSpinner { stop_pending: true };
        let task = RenderTask {
            frame_interval_ms: self.frame_interval_ms,
            frames_rendered: 0,
            finished: false,
        };
        (handle, task)
    }
}

impl StartedSpinner {
    /// Request termination. The handle is consumed, so a second stop is a
    /// compile-time impossibility; delivering the request into the loop's
    /// one-shot signal is the embedding program's part, and the loop observes
    /// it on its next poll, at worst one full frame interval later.
    pub fn stop(self) {
        let StartedSpinner { stop_pending: _ } = self;
    }
}

impl RenderTask {
    pub open spec fn interval_ms(self) -> u64 {
        self.frame_interval_ms
    }

    /// The count of full frames, glyph plus retreat, put on the wire so far.
    pub open spec fn frames(self) -> nat {
        self.frames_rendered as nat
    }

    /// Whether the task has observed the stop request and emitted the
    /// closing retreat; a finished task emits nothing further.
    pub open spec fn is_finished(self) -> bool {
        self.finished
    }

    /// All bytes put on the wire so far, in order.
    pub open spec fn written(self) -> Seq<u8> {
        if self.finished {
            finished_bytes(self.frames())
        } else {
            frames_bytes(self.frames())
        }
    }

    /// One turn of the render loop. `stop_seen` is the outcome of this
    /// turn's poll of the one-shot stop signal: while no stop has been seen
    /// the task emits the next frame, its glyph followed by one retreat, and
    /// advances the frame counter; on the turn that sees the stop it emits
    /// the single closing retreat and finishes. The returned bytes are
    /// exactly what the embedding program writes to the sink, best effort: a
    /// failed write or flush is dropped there and never reaches this state.
    pub fn step(&mut self, stop_seen: bool) -> (bytes: Vec<u8>)
        requires
            !old(self).is_finished(),
            old(self).frames() < u64::MAX,
        ensures
            final(self).interval_ms() == old(self).interval_ms(),
            final(self).is_finished() == stop_seen,
            stop_seen ==> final(self).frames() == old(self).frames(),
            !stop_seen ==> final(self).frames() == old(self).frames() + 1,
            stop_seen ==> bytes@ == seq![RETREAT],
            !stop_seen ==> bytes@ == seq![
                glyph_at(old(self).frames() as int),
                RETREAT,
            ],
            final(self).written() == old(self).written() + bytes@,
    {
        let mut bytes: Vec<u8> = Vec::new();
        if stop_seen {
            bytes.push(RETREAT);
            self.finished = true;
            proof {
                assert(bytes@ =~= seq![RETREAT]);
                assert(self.written() =~= old(self).written() + bytes@);
            }
        } else {
            let g = glyph(self.frames_rendered);
            bytes.push(g);
            bytes.push(RETREAT);
            self.frames_rendered = self.frames_rendered + 1;
            proof {
                assert(bytes@ =~= seq![glyph_at(old(self).frames() as int), RETREAT]);
                assert(self.written() =~= old(self).written() + bytes@);
            }
        }
        bytes
    }

    /// Whether the loop is over: the exec view of `is_finished`, for the
    /// embedding program's loop condition.
    pub fn done(&self) -> (d: bool)
        ensures
            d == self.is_finished(),
    {
        self.finished
    }

    /// The frame counter: the exec view of `frames`.
    pub fn frames_rendered(&self) -> (n: u64)
        ensures
            n == self.frames(),
    {
        self.frames_rendered
    }

    /// The pause between frames, in milliseconds: the exec view of
    /// `interval_ms`.
    pub fn interval_in_ms(&self) -> (ms: u64)
        ensures
            ms == self.interval_ms(),
    {
        self.frame_interval_ms
    }
}

/// The glyph of frame number `counter`: `|`, `/`, `-`, `\`, in a cycle of
/// four.
pub fn glyph(counter: u64) -> (g: u8)
    ensures
        g == glyph_at(counter as int),
{
    let r: u64 = counter % 4;
    if r == 0 {
        GLYPH_BAR
    } else if r == 1 {
        GLYPH_SLASH
    } else if r == 2 {
        GLYPH_DASH
    } else {
        GLYPH_BACKSLASH
    }
}

} // verus!
