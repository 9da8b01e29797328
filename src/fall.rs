//! The timed sequence that follows a fall out of the world: a visual effect
//! runs for a fixed time, the character is respawned at four fifths of it,
//! and the effect is torn down at its end.
use vstd::prelude::*;

verus! {

/// Length of the fall sequence, in milliseconds.
pub const FALL_SEQUENCE_MS: u64 = 1500;

/// Time into the sequence at which the character respawns: four fifths
/// of its length.
pub const RESPAWN_AT_MS: u64 = 1200;

/// What a step of the fall sequence asks for.
#[derive(Clone, Copy, Debug, PartialEq, Eq, Structural)]
pub struct FallStep {
    /// Put the character back at the spawn point now.
    pub respawn: bool,
    /// The visual effect is over and can be removed.
    pub complete: bool,
}

/// The fall sequence of one character.
#[derive(Clone, Copy, Debug, PartialEq, Eq, Structural)]
pub struct FallSequence {
    /// When the running sequence began, in milliseconds; `None` when idle.
    pub started_at: Option<u64>,
    /// Whether the running sequence has already respawned the character.
    pub respawned: bool,
}

/// Time elapsed since `start`, and zero for a time before it.
pub open spec fn elapsed_since(start: u64, now: u64) -> int {
    if now >= start {
        now - start
    } else {
        0
    }
}

impl FallSequence {
    /// Whether the sequence, begun at `start`, has reached the respawn point
    /// (progress of at least 0.8) by `now`.
    pub open spec fn respawn_due(start: u64, now: u64) -> bool {
        elapsed_since(start, now) * 10 >= FALL_SEQUENCE_MS * 8
    }

    /// Whether the sequence, begun at `start`, is over (progress of at
    /// least 1) by `now`.
    pub open spec fn complete_due(start: u64, now: u64) -> bool {
        elapsed_since(start, now) >= FALL_SEQUENCE_MS
    }

    /// What a step at `now` reports.
    pub open spec fn step_at(self, now: u64) -> FallStep {
        match self.started_at {
            None => FallStep { respawn: false, complete: false },
            Some(s) => FallStep {
                respawn: !self.respawned && Self::respawn_due(s, now),
                complete: Self::complete_due(s, now),
            },
        }
    }

    /// The sequence after a step at `now`.
    pub open spec fn after_step(self, now: u64) -> FallSequence {
        match self.started_at {
            None => self,
            Some(s) => if Self::complete_due(s, now) {
                FallSequence { started_at: None, respawned: false }
            } else if Self::respawn_due(s, now) {
                FallSequence { started_at: Some(s), respawned: true }
            } else {
                self
            },
        }
    }

    /// An idle sequence.
    pub fn new() -> (r: FallSequence)
        ensures
            r == (FallSequence { started_at: None, respawned: false }),
    {
        FallSequence { started_at: None, respawned: false }
    }

    /// Whether a sequence is running.
    pub fn is_active(&self) -> (r: bool)
        ensures
            r == self.started_at.is_some(),
    {
        self.started_at.is_some()
    }

    /// Starts the sequence at `now`; a running one starts over.
    pub fn begin(&mut self, now: u64)
        ensures
            *final(self) == (FallSequence { started_at: Some(now), respawned: false }),
    {
        self.started_at = Some(now);
        self.respawned = false;
    }

    /// Advances the sequence to `now`. The respawn is asked for once, at
    /// the first step at or past the respawn point; at the end the
    /// sequence reports completion and becomes idle.
    pub fn advance(&mut self, now: u64) -> (r: FallStep)
        ensures
            r == old(self).step_at(now),
            *final(self) == old(self).after_step(now),
    {
        match self.started_at {
            None => FallStep { respawn: false, complete: false },
            Some(start) => {
                let elapsed: u64 = now.saturating_sub(start);
                let respawn = !self.respawned && elapsed >= RESPAWN_AT_MS;
                let complete = elapsed >= FALL_SEQUENCE_MS;
                if complete {
                    self.started_at = None;
                    self.respawned = false;
                } else if elapsed >= RESPAWN_AT_MS {
                    self.respawned = true;
                }
                FallStep { respawn, complete }
            },
        }
    }

    /// Progress of the running sequence in thousandths, capped at one
    /// thousand; zero when idle.
    pub fn progress_permille(&self, now: u64) -> (r: u64)
        ensures
            r <= 1000,
            match self.started_at {
                None => r == 0,
                Some(s) => r == (if Self::complete_due(s, now) {
                    1000
                } else {
                    elapsed_since(s, now) * 1000 / (FALL_SEQUENCE_MS as int)
                }),
            },
    {
        match self.started_at {
            None => 0,
            Some(start) => {
                let elapsed: u64 = now.saturating_sub(start);
                if elapsed >= FALL_SEQUENCE_MS {
                    1000
                } else {
                    elapsed * 1000 / FALL_SEQUENCE_MS
                }
            },
        }
    }
}

} // verus!
