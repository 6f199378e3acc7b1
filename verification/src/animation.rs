//! Frame bookkeeping of sprite animations.

use vstd::prelude::*;

verus! {

/// Whether an animation starts over after its last frame.
#[derive(Debug, Clone, Copy, PartialEq, Eq, Structural)]
pub enum AnimationKind {
    Repeating,
    Once,
}

impl AnimationKind {
    pub fn is_repeating(&self) -> (r: bool)
        ensures
            r == (*self == AnimationKind::Repeating),
    {
        match self {
            AnimationKind::Repeating => true,
            AnimationKind::Once => false,
        }
    }
}

/// The frame an animation timer shows, out of a fixed number of frames.
pub struct AnimationTimer {
    current: usize,
    frame_count: usize,
}

/// The frame shown after `steps` frame advances starting at `current`.
pub open spec fn frame_after(current: int, frame_count: int, steps: nat) -> int
    decreases steps,
{
    if steps == 0 {
        current
    } else {
        (frame_after(current, frame_count, (steps - 1) as nat) + 1) % frame_count
    }
}

impl AnimationTimer {
    #[verifier::type_invariant]
    spec fn valid_frame(self) -> bool {
        self.current < self.frame_count
    }

    /// The frame shown.
    pub closed spec fn frame(self) -> int {
        self.current as int
    }

    /// The number of frames cycled through.
    pub closed spec fn frames(self) -> int {
        self.frame_count as int
    }

    /// The frame a new timer starts on: the given frame wrapped into range, or the first one.
    pub open spec fn start_frame(current: Option<usize>, frame_count: int) -> int {
        match current {
            Some(c) => (c as int) % frame_count,
            None => 0,
        }
    }

    /// A timer over `frame_count` frames, starting at `current` wrapped into range, or at the
    /// first frame.
    pub fn new(current: Option<usize>, frame_count: usize) -> (t: AnimationTimer)
        requires
            frame_count > 0,
        ensures
            t.frame() == Self::start_frame(current, frame_count as int),
            t.frames() == frame_count,
    {
        let current_idx = match current {
            Some(c) => c % frame_count,
            None => 0,
        };
        AnimationTimer { current: current_idx, frame_count }
    }

    pub fn current(&self) -> (c: usize)
        ensures
            c == self.frame(),
            c < self.frames(),
    {
        proof {
            use_type_invariant(self);
        }
        self.current
    }

    pub fn frame_count(&self) -> (n: usize)
        ensures
            n == self.frames(),
            n > 0,
    {
        proof {
            use_type_invariant(self);
        }
        self.frame_count
    }

    /// Shows the next frame, starting over after the last one.
    pub fn advance(&mut self)
        ensures
            final(self).frame() == (old(self).frame() + 1) % old(self).frames(),
            final(self).frames() == old(self).frames(),
    {
        proof {
            use_type_invariant(&*self);
        }
        self.current = (self.current + 1) % self.frame_count;
    }

    /// Changes the number of frames, keeping the shown frame in range.
    pub fn set_frame_count(&mut self, frame_count: usize)
        requires
            frame_count > 0,
        ensures
            final(self).frame() == old(self).frame() % (frame_count as int),
            final(self).frames() == frame_count,
    {
        *self = AnimationTimer { current: self.current % frame_count, frame_count };
    }

    /// The sprite index to show: the entry of `frames` at the current frame.
    pub fn sprite_index(&self, frames: &[usize]) -> (i: usize)
        requires
            self.frame() < frames@.len(),
        ensures
            i == frames@[self.frame()],
    {
        frames[self.current]
    }
}

/// How a sprite animation is timed: by a frame duration of its own, or by a timer shared
/// with the other animations of a group.
#[derive(Debug, Clone, Copy, PartialEq, Eq, Structural)]
pub enum TimerKind {
    FrameDuration,
    Group,
}

/// What timing an animation takes.
#[derive(Debug, Clone, Copy, PartialEq, Eq, Structural)]
pub enum TimerPlan {
    /// A timer of its own, starting at frame `start`.
    SpawnOwn { start: usize },
    /// The group's running timer, which shows frame `current`.
    JoinGroup { current: usize },
    /// A new timer for the group, ticking every `frame_millis` milliseconds, starting at
    /// frame `start`.
    SpawnGroup { start: usize, frame_millis: u64 },
}

/// The group has no running timer and no frame duration is known for it.
#[derive(Debug, Clone, Copy, PartialEq, Eq, Structural)]
pub struct MissingGroupTimer;

/// Decides how an animation of `frame_count` frames, asked to start at `requested`, is
/// timed: a frame duration of its own gives it a timer of its own; in a group it joins the
/// group's running timer, shown at `existing`, or else starts the group's timer with the
/// group's duration `group_millis`, failing when there is none.
pub fn timer_plan(
    kind: TimerKind,
    requested: Option<usize>,
    frame_count: usize,
    existing: Option<usize>,
    group_millis: Option<u64>,
) -> (r: Result<TimerPlan, MissingGroupTimer>)
    requires
        frame_count > 0,
    ensures
        ({
            let start = AnimationTimer::start_frame(requested, frame_count as int);
            match kind {
                TimerKind::FrameDuration => r matches Ok(TimerPlan::SpawnOwn { start: s }) && s == start,
                TimerKind::Group => match existing {
                    Some(c) => r == Ok::<TimerPlan, MissingGroupTimer>(TimerPlan::JoinGroup { current: c }),
                    None => match group_millis {
                        Some(ms) => r matches Ok(TimerPlan::SpawnGroup { start: s, frame_millis: m }) && s == start
                            && m == ms,
                        None => r == Err::<TimerPlan, MissingGroupTimer>(MissingGroupTimer),
                    },
                },
            }
        }),
{
    let start = AnimationTimer::new(requested, frame_count).current();
    match kind {
        TimerKind::FrameDuration => Ok(TimerPlan::SpawnOwn { start }),
        TimerKind::Group => match existing {
            Some(current) => Ok(TimerPlan::JoinGroup { current }),
            None => match group_millis {
                Some(frame_millis) => Ok(TimerPlan::SpawnGroup { start, frame_millis }),
                None => Err(MissingGroupTimer),
            },
        },
    }
}

/// After `steps` advances the frame is the start frame moved on by `steps`, wrapped around.
pub proof fn lemma_frames_cycle(current: int, frame_count: int, steps: nat)
    requires
        0 <= current < frame_count,
    ensures
        frame_after(current, frame_count, steps) == (current + steps) % frame_count,
    decreases steps,
{
    if steps > 0 {
        lemma_frames_cycle(current, frame_count, (steps - 1) as nat);
        vstd::arithmetic::div_mod::lemma_add_mod_noop_right(1, current + steps - 1, frame_count);
    } else {
        vstd::arithmetic::div_mod::lemma_small_mod(current as nat, frame_count as nat);
    }
}

/// Advancing as many times as there are frames shows the start frame again.
pub proof fn lemma_frames_return(current: int, frame_count: int)
    requires
        0 <= current < frame_count,
    ensures
        frame_after(current, frame_count, frame_count as nat) == current,
{
    lemma_frames_cycle(current, frame_count, frame_count as nat);
    vstd::arithmetic::div_mod::lemma_mod_add_multiples_vanish(current, frame_count);
    vstd::arithmetic::div_mod::lemma_small_mod(current as nat, frame_count as nat);
}

} // verus!
