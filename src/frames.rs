use vstd::prelude::*;

verus! {

/// The frame budget of the browser animation when none is chosen.
pub const DEFAULT_MAX_FRAMES: u64 = 2000000;

/// Paces the browser animation: one call of [`FrameClock::tick`] per
/// animation callback, until the frame budget is spent. The animation time of
/// frame `k` is `k` steps of its fixed time increment.
#[derive(Clone, Copy, Debug, PartialEq, Eq, Structural)]
pub struct FrameClock {
    /// Frames drawn so far.
    pub frame: u64,
    /// Frames to draw before the animation stops.
    pub max_frames: u64,
}

/// What the animation callback does on one tick.
#[derive(Clone, Copy, Debug, PartialEq, Eq, Structural)]
pub enum Tick {
    /// Draw frame `frame` (counted from 1) and ask for another callback.
    Draw { frame: u64 },
    /// The budget is spent: draw nothing and ask for no more callbacks.
    Stop,
}

impl FrameClock {
    pub open spec fn new_spec(max_frames: u64) -> FrameClock {
        FrameClock { frame: 0, max_frames }
    }

    pub open spec fn wf(&self) -> bool {
        self.frame <= self.max_frames
    }

    /// A clock that has drawn nothing and will draw `max_frames` frames.
    pub fn new(max_frames: u64) -> (c: FrameClock)
        ensures
            c.wf(),
            c == FrameClock::new_spec(max_frames),
    {
        FrameClock { frame: 0, max_frames }
    }

    /// Advances by one frame while the budget lasts.
    pub fn tick(&mut self) -> (t: Tick)
        requires
            old(self).wf(),
        ensures
            final(self).wf(),
            *final(self) == ticked(*old(self), 1),
            final(self).max_frames == old(self).max_frames,
            old(self).frame < old(self).max_frames ==> final(self).frame == old(self).frame + 1
                && t == (Tick::Draw { frame: final(self).frame }),
            old(self).frame == old(self).max_frames ==> (*final(self) == *old(self) && t
                == Tick::Stop),
    {
        proof {
            reveal_with_fuel(ticked, 2);
        }
        if self.frame < self.max_frames {
            self.frame = self.frame + 1;
            Tick::Draw { frame: self.frame }
        } else {
            Tick::Stop
        }
    }

    /// Whether the budget is spent.
    pub fn is_done(&self) -> (r: bool)
        ensures
            r == (self.frame >= self.max_frames),
    {
        self.frame >= self.max_frames
    }
}

/// The clock after `n` ticks from `c`.
pub open spec fn ticked(c: FrameClock, n: nat) -> FrameClock
    decreases n,
{
    if n == 0 {
        c
    } else {
        let d = ticked(c, (n - 1) as nat);
        if d.frame < d.max_frames {
            FrameClock { frame: (d.frame + 1) as u64, ..d }
        } else {
            d
        }
    }
}

/// A clock made for `m` frames draws exactly `m`: after `n` ticks it has
/// drawn the lesser of `n` and `m`.
pub proof fn lemma_draws_exactly_budget(m: u64, n: nat)
    ensures
        ticked(FrameClock::new_spec(m), n).frame == (if n < m {
            n
        } else {
            m as nat
        }),
        ticked(FrameClock::new_spec(m), n).max_frames == m,
    decreases n,
{
    if n > 0 {
        lemma_draws_exactly_budget(m, (n - 1) as nat);
    }
}

} // verus!
