use vstd::prelude::*;

verus! {

/// Polls per second that the hosting loop runs at.
pub const REFRESH_RATE: u16 = 60;

/// The refresh rate as a function, for callers that pace themselves by it.
pub fn get_fps() -> (r: u16)
    ensures
        r == REFRESH_RATE,
{
    REFRESH_RATE
}

/// Largest value the scaled phase can hold: a full cycle of the longest sheet.
pub const PHASE_LIMIT: u32 = 3932100;

/// Maps polls of the hosting loop to a frame of an animation cycle.
///
/// Two counters run side by side: the poll counter, which wraps every
/// `REFRESH_RATE` polls, and the phase within the cycle, kept in units of
/// `1 / REFRESH_RATE` of a frame so that fractional progress stays exact.
pub struct FrameSync {
    event_loop_frame_id: u16,
    phase: u32,
    n_frames: u16,
}

/// The poll counter after one more poll.
pub open spec fn next_event_frame(e: nat) -> nat {
    if e + 1 >= REFRESH_RATE as nat {
        0
    } else {
        e + 1
    }
}

/// The scaled phase after one more poll, for a cycle of `n` frames, given the
/// poll counter after that poll. A cycle shorter than one poll window follows
/// the poll counter proportionally; a longer one advances one whole frame per
/// poll and starts over when it would reach `n`.
pub open spec fn next_phase(phase: nat, n: nat, next_event: nat) -> nat {
    if n < REFRESH_RATE as nat {
        next_event * n
    } else if phase + REFRESH_RATE as nat >= n * REFRESH_RATE as nat {
        0
    } else {
        phase + REFRESH_RATE as nat
    }
}

impl FrameSync {
    /// Poll counter: polls since the last wrap or reset.
    pub closed spec fn event_frame(&self) -> nat {
        self.event_loop_frame_id as nat
    }

    /// Progress within the cycle, in units of `1 / REFRESH_RATE` of a frame.
    pub closed spec fn scaled_phase(&self) -> nat {
        self.phase as nat
    }

    /// Number of frames in one cycle.
    pub closed spec fn cycle_frames(&self) -> nat {
        self.n_frames as nat
    }

    pub open spec fn wf(&self) -> bool {
        &&& self.event_frame() < REFRESH_RATE
        &&& self.scaled_phase() <= PHASE_LIMIT
    }

    /// A synchroniser at the start of a cycle of `frames` frames.
    pub fn new(frames: u16) -> (r: Self)
        ensures
            r.wf(),
            r.event_frame() == 0,
            r.scaled_phase() == 0,
            r.cycle_frames() == frames,
    {
        FrameSync { event_loop_frame_id: 0, phase: 0, n_frames: frames }
    }

    /// The same synchroniser with a cycle of `frames` frames.
    pub fn set_frames(self, frames: u16) -> (r: Self)
        ensures
            r.event_frame() == self.event_frame(),
            r.scaled_phase() == self.scaled_phase(),
            r.cycle_frames() == frames,
    {
        FrameSync { n_frames: frames, ..self }
    }

    /// Zeroes both counters, ending the current cycle early.
    pub fn reset_frames(&mut self)
        ensures
            final(self).wf(),
            final(self).event_frame() == 0,
            final(self).scaled_phase() == 0,
            final(self).cycle_frames() == old(self).cycle_frames(),
    {
        self.event_loop_frame_id = 0;
        self.phase = 0;
    }

    /// Advances both counters by one poll.
    pub fn update(&mut self)
        requires
            old(self).wf(),
        ensures
            final(self).wf(),
            final(self).event_frame() == next_event_frame(old(self).event_frame()),
            final(self).scaled_phase() == next_phase(
                old(self).scaled_phase(),
                old(self).cycle_frames(),
                final(self).event_frame(),
            ),
            final(self).cycle_frames() == old(self).cycle_frames(),
    {
        if self.event_loop_frame_id + 1 >= REFRESH_RATE {
            self.event_loop_frame_id = 0;
        } else {
            self.event_loop_frame_id = self.event_loop_frame_id + 1;
        }
        let fps = REFRESH_RATE as u32;
        let n = self.n_frames as u32;
        if self.n_frames < REFRESH_RATE {
            assert(self.event_loop_frame_id as u32 * n <= 60 * 60) by (nonlinear_arith)
                requires
                    self.event_loop_frame_id < 60,
                    n < 60,
            ;
            self.phase = self.event_loop_frame_id as u32 * n;
        } else if self.phase + fps >= n * fps {
            self.phase = 0;
        } else {
            self.phase = self.phase + fps;
        }
    }

    /// The current frame of the cycle: the whole part of the phase.
    pub fn get_frame(&self) -> (r: usize)
        ensures
            r == self.scaled_phase() / REFRESH_RATE as nat,
    {
        (self.phase / (REFRESH_RATE as u32)) as usize
    }

    /// The poll counter, for deadlines that do not depend on the cycle's length.
    pub fn get_event_frame(&self) -> (r: u16)
        ensures
            r == self.event_frame(),
    {
        self.event_loop_frame_id
    }

    /// Whether the poll counter stands at the start of a window.
    pub fn cycle_completed(&self) -> (r: bool)
        ensures
            r == (self.event_frame() == 0),
    {
        self.event_loop_frame_id == 0
    }
}

} // verus!
