//! A frame-count timer: counts update ticks toward a limit and reports when
//! the limit is reached, either once or repeatedly.

use vstd::prelude::*;

verus! {

/// Counts calls to `update` while running and fires once the count reaches
/// `frame_limit`. A repeating timer rewinds its count and keeps running; a
/// one-shot timer stops. The caller runs its per-tick action whenever
/// `update` reports that the timer fired.
pub struct FrameTimer {
    current_frame: u32,
    end_frame: u32,
    enabled: bool,
    repeating: bool,
}

/// The frame count after one tick: one more than before, held at `u32::MAX`
/// once the counter is exhausted.
pub open spec fn ticked_frames(t: FrameTimer) -> int {
    if t.frames() < u32::MAX {
        t.frames() + 1
    } else {
        t.frames() as int
    }
}

/// A running timer fires on the tick that brings its frame count to the
/// limit (immediately, for a limit of zero).
pub open spec fn timer_fires(t: FrameTimer) -> bool {
    t.running() && ticked_frames(t) >= t.frame_limit() as int
}

impl FrameTimer {
    /// The number of ticks counted since the last rewind.
    pub closed spec fn frames(self) -> u32 {
        self.current_frame
    }

    /// The number of ticks at which the timer fires.
    pub closed spec fn frame_limit(self) -> u32 {
        self.end_frame
    }

    /// Whether ticks are currently being counted.
    pub closed spec fn running(self) -> bool {
        self.enabled
    }

    /// Whether the timer rewinds and keeps running after it fires.
    pub closed spec fn repeats(self) -> bool {
        self.repeating
    }

    /// A stopped timer that will fire after `end_frame` ticks once started.
    pub fn new(end_frame: u32, repeating: bool) -> (t: FrameTimer)
        ensures
            t.frames() == 0,
            t.frame_limit() == end_frame,
            !t.running(),
            t.repeats() == repeating,
    {
        FrameTimer { current_frame: 0, end_frame, enabled: false, repeating }
    }

    /// Begins counting ticks. The frame count is kept, not rewound.
    pub fn start(&mut self)
        ensures
            final(self).running(),
            final(self).frames() == old(self).frames(),
            final(self).frame_limit() == old(self).frame_limit(),
            final(self).repeats() == old(self).repeats(),
    {
        self.enabled = true;
    }

    /// Stops counting ticks. The frame count is kept, not rewound.
    pub fn stop(&mut self)
        ensures
            !final(self).running(),
            final(self).frames() == old(self).frames(),
            final(self).frame_limit() == old(self).frame_limit(),
            final(self).repeats() == old(self).repeats(),
    {
        self.enabled = false;
    }

    /// Rewinds the frame count to zero without starting or stopping.
    pub fn reset(&mut self)
        ensures
            final(self).frames() == 0,
            final(self).running() == old(self).running(),
            final(self).frame_limit() == old(self).frame_limit(),
            final(self).repeats() == old(self).repeats(),
    {
        self.current_frame = 0;
    }

    /// Counts one tick and reports whether the timer fired. A stopped timer
    /// ignores the tick. When a repeating timer fires it rewinds and keeps
    /// running; when a one-shot timer fires it stops.
    pub fn update(&mut self) -> (fired: bool)
        ensures
            fired == timer_fires(*old(self)),
            final(self).frame_limit() == old(self).frame_limit(),
            final(self).repeats() == old(self).repeats(),
            !old(self).running() ==> *final(self) == *old(self),
            old(self).running() && !fired ==> final(self).frames() == ticked_frames(*old(self))
                && final(self).running(),
            fired && old(self).repeats() ==> final(self).frames() == 0 && final(self).running(),
            fired && !old(self).repeats() ==> final(self).frames() == ticked_frames(*old(self))
                && !final(self).running(),
    {
        if !self.enabled {
            return false;
        }
        if self.current_frame < u32::MAX {
            self.current_frame = self.current_frame + 1;
        }
        if self.current_frame >= self.end_frame {
            if self.repeating {
                self.reset();
            } else {
                self.stop();
            }
            true
        } else {
            false
        }
    }
}

} // verus!
