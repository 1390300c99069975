//! When what a machine no longer keeps is removed from its record.
//!
//! A rule counted in days is a promise about a file on a disk, so under one the
//! machine wakes up on an interval to shorten its record; a machine that keeps
//! everything, or whose record is not on a disk, has nothing to wake up for.
//! The first shortening is due at once, and the wait is never longer than
//! [`EVERY`], so a clock put back costs one extra wake-up and not the rule.
//!
//! Nothing here holds a clock: every question takes `now`. Moments are
//! nanoseconds since the Unix epoch, and waits are nanoseconds. The wait is
//! what is left of the interval since the last shortening, so no moment is
//! too late to be waited from.

use vstd::prelude::*;

verus! {

/// How often a machine under a retention rule shortens its record: an hour,
/// in nanoseconds.
pub const EVERY: u64 = 3_600_000_000_000u64;

/// The retention rule a record is kept under.
#[derive(Debug, Clone, Copy, PartialEq, Eq, Structural)]
pub enum Keeping {
    /// Everything is kept; nothing is ever shortened.
    Forever,
    /// What is older than this many days is removed.
    ForDays(u32),
}

/// A retention rule of no days at all, which is refused: the finest rule there
/// is counts one whole day.
#[derive(Debug, Clone, Copy, PartialEq, Eq, Structural)]
pub struct NoDaysAtAll;

impl Keeping {
    /// Whether this rule is one a record can be under: a rule counted in days
    /// counts at least one.
    pub open spec fn is_a_rule(self) -> bool {
        self matches Keeping::ForDays(n) ==> n > 0
    }

    /// What is older than `days` days is removed — or, for no days at all,
    /// the refusal.
    pub fn for_days(days: u32) -> (rule: Result<Keeping, NoDaysAtAll>)
        ensures
            days == 0 ==> rule == Err::<Keeping, NoDaysAtAll>(NoDaysAtAll),
            days != 0 ==> rule == Ok::<Keeping, NoDaysAtAll>(Keeping::ForDays(days)),
            rule matches Ok(k) ==> k.is_a_rule(),
    {
        if days == 0 {
            Err(NoDaysAtAll)
        } else {
            Ok(Keeping::ForDays(days))
        }
    }

    /// How many days the record is kept for, or none for a record kept forever.
    pub open spec fn spec_days(self) -> Option<u32> {
        match self {
            Keeping::Forever => None,
            Keeping::ForDays(n) => Some(n),
        }
    }

    /// How many days the record is kept for, or `None` when it is kept forever.
    pub fn days(&self) -> (days: Option<u32>)
        ensures
            days == self.spec_days(),
    {
        match self {
            Keeping::Forever => None,
            Keeping::ForDays(n) => Some(*n),
        }
    }
}

/// The rule this machine's record is kept under, and when it was last acted on.
#[derive(Debug, Clone, Copy, PartialEq, Eq, Structural)]
pub struct Ageing {
    /// How long the record is kept.
    keeping: Keeping,
    /// When a shortening was last attempted, if one ever was.
    last: Option<u64>,
    /// Whether there is a record on a disk here at all.
    on_a_disk: bool,
}

/// How long is left of the interval that started at `last`, from `now`:
/// nothing once a whole interval has passed, and never more than the whole
/// interval — a clock that reads earlier than `last` waits exactly that.
pub open spec fn left_since(last: u64, now: u64) -> u64 {
    if now < last {
        EVERY
    } else if now - last >= EVERY {
        0
    } else {
        (EVERY - (now - last)) as u64
    }
}

impl Ageing {
    /// The rule.
    pub closed spec fn rule(self) -> Keeping {
        self.keeping
    }

    /// When a shortening was last attempted.
    pub closed spec fn last_ran(self) -> Option<u64> {
        self.last
    }

    /// Whether the record is on a disk.
    pub closed spec fn kept_on_a_disk(self) -> bool {
        self.on_a_disk
    }

    /// How long a wait from `now` may last before the next shortening is due,
    /// or `None` when there is nothing to wake up for.
    pub open spec fn wait_from(self, now: u64) -> Option<u64> {
        if !self.kept_on_a_disk() || self.rule().spec_days() is None {
            None
        } else {
            match self.last_ran() {
                None => Some(0u64),
                Some(last) => Some(left_since(last, now)),
            }
        }
    }

    /// A machine keeping its record under this rule, which has shortened
    /// nothing yet.
    pub fn under(keeping: Keeping) -> (ageing: Ageing)
        ensures
            ageing.rule() == keeping,
            ageing.last_ran() is None,
            ageing.kept_on_a_disk(),
    {
        Ageing { keeping, last: None, on_a_disk: true }
    }

    /// How long the record is kept.
    pub fn keeping(&self) -> (keeping: Keeping)
        ensures
            keeping == self.rule(),
    {
        self.keeping
    }

    /// Whether a shortening should run now.
    pub fn due(&self, now: u64) -> (due: bool)
        ensures
            due == (self.wait_from(now) == Some(0u64)),
    {
        match self.before(now) {
            Some(wait) => wait == 0,
            None => false,
        }
    }

    /// How long a wait may last before the next shortening is due; `None`
    /// means there is nothing to wake up for.
    pub fn before(&self, now: u64) -> (wait: Option<u64>)
        ensures
            wait == self.wait_from(now),
    {
        if !self.on_a_disk || self.keeping.days().is_none() {
            return None;
        }
        match self.last {
            None => Some(0),
            Some(last) => {
                if now < last {
                    Some(EVERY)
                } else if now - last >= EVERY {
                    Some(0)
                } else {
                    Some(EVERY - (now - last))
                }
            },
        }
    }

    /// One shortening was attempted at this moment, whether it removed
    /// anything, removed nothing, or was refused.
    pub fn ran(&mut self, now: u64)
        ensures
            final(self).rule() == old(self).rule(),
            final(self).kept_on_a_disk() == old(self).kept_on_a_disk(),
            final(self).last_ran() == Some(now),
    {
        self.last = Some(now);
    }

    /// There is no record on a disk here, so there is nothing to shorten.
    pub fn nothing_to_shorten(&mut self)
        ensures
            final(self).rule() == old(self).rule(),
            final(self).last_ran() == old(self).last_ran(),
            !final(self).kept_on_a_disk(),
    {
        self.on_a_disk = false;
    }
}

/// The wait is never longer than [`EVERY`], whatever the clock says: a clock
/// put back costs a wake-up and not the rule.
pub proof fn the_wait_is_never_longer_than_the_interval(ageing: Ageing, now: u64)
    ensures
        ageing.wait_from(now) matches Some(wait) ==> wait <= EVERY,
{
}

/// A machine that keeps everything never wakes up to shorten anything.
pub proof fn keeping_everything_is_never_due(ageing: Ageing, now: u64)
    requires
        ageing.rule() == Keeping::Forever,
    ensures
        ageing.wait_from(now) is None,
{
}

/// Under a rule, the first shortening is due at once, whenever it is asked.
pub proof fn the_first_shortening_is_due_at_once(keeping: Keeping, ageing: Ageing, now: u64)
    requires
        keeping.spec_days() is Some,
        ageing.rule() == keeping,
        ageing.last_ran() is None,
        ageing.kept_on_a_disk(),
    ensures
        ageing.wait_from(now) == Some(0u64),
{
}

/// After a shortening at `then`, the next is a whole interval away, and due
/// from the moment the interval has passed.
pub proof fn the_next_is_an_interval_after_the_last(ageing: Ageing, then: u64, later: u64)
    requires
        ageing.rule().spec_days() is Some,
        ageing.kept_on_a_disk(),
        ageing.last_ran() == Some(then),
        then <= later,
    ensures
        ageing.wait_from(then) == Some(EVERY),
        later - then < EVERY ==> ageing.wait_from(later) == Some((EVERY - (later - then)) as u64),
        later - then >= EVERY ==> ageing.wait_from(later) == Some(0u64),
{
}

/// A record that is not on a disk stops the waking up, at every moment after.
pub proof fn no_record_on_a_disk_is_never_due(ageing: Ageing, now: u64)
    requires
        !ageing.kept_on_a_disk(),
    ensures
        ageing.wait_from(now) is None,
{
}

/// A clock put back before the last shortening waits exactly one interval.
pub proof fn a_clock_put_back_waits_one_interval(ageing: Ageing, now: u64)
    requires
        ageing.rule().spec_days() is Some,
        ageing.kept_on_a_disk(),
        ageing.last_ran() matches Some(last) && now < last,
    ensures
        ageing.wait_from(now) == Some(EVERY),
{
}

/// The wait only shortens as the clock moves on: a later moment never has
/// longer to wait, until the shortening is due.
pub proof fn the_wait_shortens_as_time_passes(ageing: Ageing, earlier: u64, later: u64)
    requires
        ageing.last_ran() matches Some(last) && last <= earlier,
        earlier <= later,
        ageing.wait_from(earlier) is Some,
    ensures
        ageing.wait_from(later) is Some,
        ageing.wait_from(later)->0 <= ageing.wait_from(earlier)->0,
        ageing.wait_from(earlier)->0 - ageing.wait_from(later)->0 <= later - earlier,
{
}

} // verus!
