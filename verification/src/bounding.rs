//! What a turn's control group is called.
//!
//! A turn's control group is one component under the service's own, and its
//! name is a count kept by this service rather than anything about the turn: a
//! name made out of the agent, the person or the verb would put something an
//! agent influences into a path on the filesystem. The count saturates, so a
//! service that has run out of names says the last one again rather than
//! wrapping back through names it has used.

use vstd::prelude::*;
use vstd::string::StringExecFns;

use crate::decimal::{decimal, decimal_is_one_to_one, decimal_reads_back, push_decimal, read_back};

verus! {

/// What every turn's name starts with.
pub const TURN: &'static str = "turn-";

/// The count after one more turn: one more, or the last there is.
pub open spec fn counted(named: u64) -> u64 {
    if named < u64::MAX {
        (named + 1) as u64
    } else {
        u64::MAX
    }
}

/// The name the turn counted `n` is made under.
pub open spec fn name_of(n: u64) -> Seq<char> {
    TURN@ + decimal(n as nat)
}

/// The name the next turn's control group is made under.
pub fn next_name(named: &mut u64) -> (name: String)
    ensures
        *final(named) == counted(*old(named)),
        name@ == name_of(*final(named)),
{
    *named = named.saturating_add(1);
    let mut name = TURN.to_owned();
    push_decimal(&mut name, *named);
    name
}

/// Every turn is named once: two different counts are never the same name.
pub proof fn every_count_has_a_name_of_its_own(a: u64, b: u64)
    requires
        a != b,
    ensures
        name_of(a) != name_of(b),
{
    if name_of(a) == name_of(b) {
        assert(decimal(a as nat) =~= name_of(a).skip(TURN@.len() as int));
        assert(decimal(b as nat) =~= name_of(b).skip(TURN@.len() as int));
        decimal_is_one_to_one(a as nat, b as nat);
    }
}

/// Until the count runs out, the next name is one no turn before it had: the
/// count only grows.
pub proof fn the_count_only_grows(named: u64)
    requires
        named < u64::MAX,
    ensures
        counted(named) > named,
        forall|earlier: u64| earlier <= named ==> #[trigger] name_of(earlier) != name_of(counted(named)),
{
    assert forall|earlier: u64| earlier <= named implies #[trigger] name_of(earlier) != name_of(
        counted(named),
    ) by {
        every_count_has_a_name_of_its_own(earlier, counted(named));
    }
}

/// The count goes up by one for every turn until it reaches the last there
/// is, and stays there; every name is `turn-` and the count in decimal.
pub proof fn each_turn_counts_one(named: u64)
    ensures
        named < u64::MAX ==> counted(named) == named + 1,
        named == u64::MAX ==> counted(named) == u64::MAX,
        name_of(named).subrange(0, 5) == TURN@,
        read_back(name_of(named).subrange(5, name_of(named).len() as int)) == named,
{
    reveal_strlit("turn-");
    assert(name_of(named).subrange(0, 5) =~= TURN@);
    assert(name_of(named).subrange(5, name_of(named).len() as int) =~= decimal(named as nat));
    decimal_reads_back(named as nat);
}

} // verus!
