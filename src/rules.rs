//! Limits of the game that the host enforces and a well-behaved snake keeps.
//!
//! The host kills a snake that breaks them; it reports nothing first. A snake
//! that wants to stay alive keeps a `Pacing` record of its own actions and
//! asks it before acting.
use vstd::prelude::*;
use crate::direction::Direction;

verus! {

/// The highest health a snake can have; at zero it dies.
pub const MAX_HEALTH: u32 = 100;

/// The shortest snake that may split.
pub const MIN_SPLIT_LENGTH: u32 = 9;

/// The number of ticks that a leap blocks, counting its own.
pub const LEAP_COOL_DOWN_TICKS: u64 = 2;

/// An action that the host would punish at this point.
#[derive(Debug, Copy, Clone, PartialEq, Eq, Hash, Structural)]
pub enum Violation {
    /// A move was already made in this tick.
    AlreadyMoved,
    /// A leap comes only after the tick's move.
    LeapBeforeMove,
    /// A leap was made in this tick or the previous one.
    LeapTooSoon,
    /// The snake is shorter than the split minimum.
    TooShortToSplit,
}

/// Whether a snake of this length may split.
pub fn check_split(length: u32) -> (r: Result<(), Violation>)
    ensures
        r is Ok <==> length >= MIN_SPLIT_LENGTH,
        r is Err ==> r == Err::<(), Violation>(Violation::TooShortToSplit),
{
    if length >= MIN_SPLIT_LENGTH {
        Ok(())
    } else {
        Err(Violation::TooShortToSplit)
    }
}

/// What a snake has done so far in the game, as far as the pacing rules care.
#[derive(Debug, Copy, Clone, PartialEq, Eq, Hash, Structural)]
pub struct Pacing {
    /// The current tick.
    pub tick: u64,
    /// Whether the move of the current tick was made.
    pub moved: bool,
    /// The tick of the latest leap, if any.
    pub last_leap: Option<u64>,
    /// The heading set last; `None` until one is set, while the host's
    /// default heading applies.
    pub heading: Option<Direction>,
}

impl Pacing {
    /// Whether a move is legal now.
    pub open spec fn move_verdict(self) -> Result<(), Violation> {
        if self.moved {
            Err(Violation::AlreadyMoved)
        } else {
            Ok(())
        }
    }

    /// Whether a leap is legal now: only after this tick's move, and not in
    /// the tick of a leap nor in the one after it.
    pub open spec fn leap_verdict(self) -> Result<(), Violation> {
        if !self.moved {
            Err(Violation::LeapBeforeMove)
        } else if self.last_leap matches Some(t) && self.tick < t + LEAP_COOL_DOWN_TICKS {
            Err(Violation::LeapTooSoon)
        } else {
            Ok(())
        }
    }

    /// The record once this tick's move is made.
    pub open spec fn after_move(self) -> Pacing {
        Pacing { moved: true, ..self }
    }

    /// The record once a leap is made in the current tick.
    pub open spec fn after_leap(self) -> Pacing {
        Pacing { last_leap: Some(self.tick), ..self }
    }

    /// The record once the host's tick counter reads `now`: a later tick owes
    /// a fresh move; an earlier or equal reading changes nothing.
    pub open spec fn after_tick(self, now: u64) -> Pacing {
        if now > self.tick {
            Pacing { tick: now, moved: false, ..self }
        } else {
            self
        }
    }

    /// The record at the start of a game: tick 0, nothing done, no heading
    /// set.
    pub fn new() -> (r: Pacing)
        ensures
            r.tick == 0,
            !r.moved,
            r.last_leap is None,
            r.heading is None,
    {
        Pacing { tick: 0, moved: false, last_leap: None, heading: None }
    }

    /// Follows the host's tick counter.
    pub fn advance_to(&mut self, now: u64)
        ensures
            *final(self) == old(self).after_tick(now),
    {
        if now > self.tick {
            self.tick = now;
            self.moved = false;
        }
    }

    /// Records a new heading; it applies from the next move on.
    pub fn set_direction(&mut self, direction: Direction)
        ensures
            *final(self) == (Pacing { heading: Some(direction), ..*old(self) }),
    {
        self.heading = Some(direction);
    }

    /// Whether a move is legal now.
    pub fn check_move(&self) -> (r: Result<(), Violation>)
        ensures
            r == self.move_verdict(),
    {
        if self.moved {
            Err(Violation::AlreadyMoved)
        } else {
            Ok(())
        }
    }

    /// Whether a leap is legal now.
    pub fn check_leap(&self) -> (r: Result<(), Violation>)
        ensures
            r == self.leap_verdict(),
    {
        if !self.moved {
            Err(Violation::LeapBeforeMove)
        } else {
            match self.last_leap {
                Some(t) => {
                    if self.tick < LEAP_COOL_DOWN_TICKS || self.tick - LEAP_COOL_DOWN_TICKS < t {
                        Err(Violation::LeapTooSoon)
                    } else {
                        Ok(())
                    }
                },
                None => Ok(()),
            }
        }
    }

    /// Records a move where one is legal; otherwise reports why not and
    /// records nothing.
    pub fn record_move(&mut self) -> (r: Result<(), Violation>)
        ensures
            r == old(self).move_verdict(),
            r is Ok ==> *final(self) == old(self).after_move(),
            r is Err ==> *final(self) == *old(self),
    {
        let r = self.check_move();
        if r.is_ok() {
            self.moved = true;
        }
        r
    }

    /// Records a leap where one is legal; otherwise reports why not and
    /// records nothing.
    pub fn record_leap(&mut self) -> (r: Result<(), Violation>)
        ensures
            r == old(self).leap_verdict(),
            r is Ok ==> *final(self) == old(self).after_leap(),
            r is Err ==> *final(self) == *old(self),
    {
        let r = self.check_leap();
        if r.is_ok() {
            self.last_leap = Some(self.tick);
        }
        r
    }
}

/// A leap rules out another one in the same tick and in the next tick, moves
/// or not; from the tick after that on, a leap is legal again once the tick's
/// move is made.
pub proof fn lemma_leap_cool_down(p: Pacing, now: u64)
    requires
        p.leap_verdict() is Ok,
    ensures
        p.after_leap().leap_verdict() == Err::<(), Violation>(Violation::LeapTooSoon),
        now <= p.tick + 1 ==> p.after_leap().after_tick(now).leap_verdict() is Err,
        now <= p.tick + 1 ==> p.after_leap().after_tick(now).after_move().leap_verdict() == Err::<
            (),
            Violation,
        >(Violation::LeapTooSoon),
        now >= p.tick + 2 ==> p.after_leap().after_tick(now).after_move().leap_verdict() is Ok,
{
}

/// A new tick always owes a move, and only one: the move is legal, and a
/// second one in the same tick is not.
pub proof fn lemma_one_move_per_tick(p: Pacing, now: u64)
    requires
        now > p.tick,
    ensures
        p.after_tick(now).move_verdict() is Ok,
        p.after_tick(now).after_move().move_verdict() == Err::<(), Violation>(
            Violation::AlreadyMoved,
        ),
{
}

} // verus!
