use vstd::prelude::*;

verus! {

/// What the position tracker sees on one tick of its loop.
#[derive(Debug, Clone, Copy)]
pub enum TrackerInput {
    /// A snapshot published by the decode task: the play flag and the true
    /// decoded position at that moment.
    Snapshot { is_playing: bool, position_ms: u64 },
    /// The tracker is put back to the uninitialized state, used when the
    /// current song changes.
    Reset,
    /// No snapshot was pending this tick.
    Quiet,
}

/// Extrapolates continuous playback position from the sparse snapshots the
/// decode task publishes, against a caller-supplied monotonic clock.
///
/// The tracker holds the last snapshot as a baseline: the position it gave
/// and the clock reading it was anchored at. While playing, every tick
/// reports baseline position plus elapsed clock time, which gives smooth
/// position updates even though real snapshots arrive packet-sized, not
/// time-sized. The output is best-effort interpolation, not ground truth
/// between snapshots.
#[derive(Debug, Clone, Copy)]
pub struct PositionTracker {
    pub inited: bool,
    pub playing: bool,
    pub base_position_ms: u64,
    pub anchor_ms: u64,
}

/// The position the tracker reports at clock reading `now_ms`: the baseline
/// position plus the clock time elapsed since it was anchored, saturating at
/// the largest representable position. A clock reading older than the anchor
/// counts as no elapsed time.
pub open spec fn extrapolated(t: PositionTracker, now_ms: u64) -> u64 {
    let e = t.base_position_ms + (if now_ms >= t.anchor_ms {
        now_ms - t.anchor_ms
    } else {
        0
    });
    if e > u64::MAX {
        u64::MAX
    } else {
        e as u64
    }
}

/// The tracker state after one tick. Every snapshot, playing or not, becomes
/// the new baseline, anchored at the tick's clock reading; a reset forgets
/// the baseline; a quiet tick changes nothing.
pub open spec fn tracker_after(t: PositionTracker, input: TrackerInput, now_ms: u64) -> PositionTracker {
    match input {
        TrackerInput::Snapshot { is_playing, position_ms } => PositionTracker {
            inited: true,
            playing: is_playing,
            base_position_ms: position_ms,
            anchor_ms: now_ms,
        },
        TrackerInput::Reset => PositionTracker { inited: false, ..t },
        TrackerInput::Quiet => t,
    }
}

/// What one tick emits. A snapshot always reports its own position at once:
/// a paused snapshot is the authoritative final value, and a playing one has
/// no elapsed time yet. A quiet tick extrapolates while initialized and
/// playing, and stays silent otherwise; a reset stays silent.
pub open spec fn tracker_emit(t: PositionTracker, input: TrackerInput, now_ms: u64) -> Option<
    u64,
> {
    match input {
        TrackerInput::Snapshot { is_playing: _, position_ms } => Some(position_ms),
        TrackerInput::Reset => None,
        TrackerInput::Quiet => if t.inited && t.playing {
            Some(extrapolated(t, now_ms))
        } else {
            None
        },
    }
}

/// Law: a playing snapshot at position `p` anchored at clock time `t0`
/// reports `p` at once, and a quiet tick at a later clock time `t1` reports
/// exactly `p` plus the elapsed time `t1 - t0`.
pub proof fn lemma_tracker_extrapolates(t: PositionTracker, p: u64, t0: u64, t1: u64)
    requires
        t0 <= t1,
        p + (t1 - t0) <= u64::MAX,
    ensures
        tracker_emit(t, TrackerInput::Snapshot { is_playing: true, position_ms: p }, t0)
            == Some(p),
        tracker_emit(
            tracker_after(t, TrackerInput::Snapshot { is_playing: true, position_ms: p }, t0),
            TrackerInput::Quiet,
            t1,
        ) == Some((p + (t1 - t0)) as u64),
{
}

/// Law: a paused snapshot at position `p` reports `p` once as the
/// authoritative final value, and every later quiet tick stays silent: the
/// reported position is frozen at `p`.
pub proof fn lemma_tracker_freezes(t: PositionTracker, p: u64, t0: u64, t1: u64)
    ensures
        tracker_emit(t, TrackerInput::Snapshot { is_playing: false, position_ms: p }, t0)
            == Some(p),
        tracker_emit(
            tracker_after(t, TrackerInput::Snapshot { is_playing: false, position_ms: p }, t0),
            TrackerInput::Quiet,
            t1,
        ) is None,
{
}

impl PositionTracker {
    /// A fresh tracker: uninitialized, extrapolating nothing.
    pub fn new() -> (r: PositionTracker)
        ensures
            !r.inited,
            !r.playing,
            r.base_position_ms == 0,
            r.anchor_ms == 0,
    {
        PositionTracker { inited: false, playing: false, base_position_ms: 0, anchor_ms: 0 }
    }

    /// Runs one tick of the tracker loop against the clock reading `now_ms`,
    /// returning the position to report, if any.
    pub fn step(&mut self, input: TrackerInput, now_ms: u64) -> (emit: Option<u64>)
        ensures
            *final(self) == tracker_after(*old(self), input, now_ms),
            emit == tracker_emit(*old(self), input, now_ms),
    {
        match input {
            TrackerInput::Snapshot { is_playing, position_ms } => {
                self.inited = true;
                self.playing = is_playing;
                self.base_position_ms = position_ms;
                self.anchor_ms = now_ms;
                Some(position_ms)
            },
            TrackerInput::Reset => {
                self.inited = false;
                None
            },
            TrackerInput::Quiet => {
                if self.inited && self.playing {
                    let elapsed: u64 = if now_ms >= self.anchor_ms {
                        now_ms - self.anchor_ms
                    } else {
                        0
                    };
                    let pos: u64 = if elapsed <= u64::MAX - self.base_position_ms {
                        self.base_position_ms + elapsed
                    } else {
                        u64::MAX
                    };
                    Some(pos)
                } else {
                    None
                }
            },
        }
    }
}

} // verus!
