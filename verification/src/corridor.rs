//! A turn's question to the machine its person chose on this network, as the
//! order of what is asked before anything leaves, and how that machine is
//! named where the question is shown.
//!
//! In this order, and every step before anything leaves: the organisation's
//! bound; the pairing, asked again at this question; where the machine
//! answers, measured now; the corridor, made under the lock; and only then the
//! question. Every refusal ends the question — nothing here asks anything else
//! instead, so no step is ever a fallback for another.
//!
//! The machine is shown by what the person here called it, and by its
//! identity until somebody has named it. A name of nothing but spaces is no
//! name.

use vstd::prelude::*;

use crate::text::{blank, is_blank};

verus! {

/// What a chosen machine is shown as: the name the person here gave it, where
/// they gave one that is not blank, and otherwise its identity.
pub open spec fn shown_as(named: Option<String>, machine: Seq<char>) -> Seq<char> {
    match named {
        Some(name) => if is_blank(name@) {
            machine
        } else {
            name@
        },
        None => machine,
    }
}

/// The name a question down the corridor is shown and kept under, given what
/// the person here called the machine, if anything, and its identity.
pub fn called(named: Option<String>, machine: &str) -> (shown: String)
    ensures
        shown@ == shown_as(named, machine@),
{
    match named {
        Some(name) => {
            if blank(name.as_str()) {
                machine.to_owned()
            } else {
                name
            }
        },
        None => machine.to_owned(),
    }
}

/// Why a question down the corridor was not sent, or not answered.
#[derive(Debug, Clone, Copy, PartialEq, Eq, Structural)]
pub enum NotSent {
    /// The bound on questions refuses the chosen machine.
    ByARule,
    /// No pairing lets the chosen machine be asked, now.
    NotPaired,
    /// The chosen machine did not answer when it was looked for.
    DidNotAnswer,
    /// The question was put and nothing answered it.
    NothingAnswered,
}

/// Where a question down the corridor stands.
#[derive(Debug, Clone, Copy, PartialEq, Eq, Structural)]
pub enum CorridorStep {
    /// Ask the bound on questions about the chosen machine.
    AskTheBound,
    /// Ask the pairings whether the chosen machine may be asked.
    AskThePairing,
    /// Look for where the chosen machine answers, now.
    LookForIt,
    /// Make the corridor, under the lock, with a copy of the pairing.
    MakeTheCorridor,
    /// Put the question, through the turn.
    Put,
    /// The question was answered.
    Answered,
    /// The question ended here, for this reason.
    Refused(NotSent),
}

/// Where a question stands once the step `at` went (`went`) or did not.
pub open spec fn after(at: CorridorStep, went: bool) -> CorridorStep {
    match at {
        CorridorStep::AskTheBound => if went {
            CorridorStep::AskThePairing
        } else {
            CorridorStep::Refused(NotSent::ByARule)
        },
        CorridorStep::AskThePairing => if went {
            CorridorStep::LookForIt
        } else {
            CorridorStep::Refused(NotSent::NotPaired)
        },
        CorridorStep::LookForIt => if went {
            CorridorStep::MakeTheCorridor
        } else {
            CorridorStep::Refused(NotSent::DidNotAnswer)
        },
        CorridorStep::MakeTheCorridor => if went {
            CorridorStep::Put
        } else {
            CorridorStep::Refused(NotSent::NotPaired)
        },
        CorridorStep::Put => if went {
            CorridorStep::Answered
        } else {
            CorridorStep::Refused(NotSent::NothingAnswered)
        },
        ended => ended,
    }
}

/// The step after `at`, given whether `at` went.
pub fn next(at: CorridorStep, went: bool) -> (then: CorridorStep)
    ensures
        then == after(at, went),
{
    match at {
        CorridorStep::AskTheBound => if went {
            CorridorStep::AskThePairing
        } else {
            CorridorStep::Refused(NotSent::ByARule)
        },
        CorridorStep::AskThePairing => if went {
            CorridorStep::LookForIt
        } else {
            CorridorStep::Refused(NotSent::NotPaired)
        },
        CorridorStep::LookForIt => if went {
            CorridorStep::MakeTheCorridor
        } else {
            CorridorStep::Refused(NotSent::DidNotAnswer)
        },
        CorridorStep::MakeTheCorridor => if went {
            CorridorStep::Put
        } else {
            CorridorStep::Refused(NotSent::NotPaired)
        },
        CorridorStep::Put => if went {
            CorridorStep::Answered
        } else {
            CorridorStep::Refused(NotSent::NothingAnswered)
        },
        ended => ended,
    }
}

/// Where a question stands after the steps that went as `went` says, from
/// the first.
pub open spec fn walked(went: Seq<bool>) -> CorridorStep
    decreases went.len(),
{
    if went.len() == 0 {
        CorridorStep::AskTheBound
    } else {
        after(walked(went.drop_last()), went.last())
    }
}

/// How far along the order a step is.
pub open spec fn rank(at: CorridorStep) -> int {
    match at {
        CorridorStep::AskTheBound => 0,
        CorridorStep::AskThePairing => 1,
        CorridorStep::LookForIt => 2,
        CorridorStep::MakeTheCorridor => 3,
        CorridorStep::Put => 4,
        CorridorStep::Answered => 5,
        CorridorStep::Refused(_) => -1,
    }
}

/// A walk that has not been refused has gone exactly as far as its steps,
/// every one of which went.
proof fn a_walk_not_refused_went_every_step(went: Seq<bool>)
    requires
        !(walked(went) is Refused),
    ensures
        rank(walked(went)) == if went.len() <= 5 {
            went.len() as int
        } else {
            5
        },
        forall|i: int| 0 <= i < went.len() && i < 5 ==> #[trigger] went[i],
    decreases went.len(),
{
    if went.len() > 0 {
        let before = went.drop_last();
        if walked(before) is Refused {
            assert(walked(went) == walked(before));
        } else {
            a_walk_not_refused_went_every_step(before);
            assert forall|i: int| 0 <= i < went.len() && i < 5 implies #[trigger] went[i] by {
                if i < went.len() - 1 {
                    assert(went[i] == before[i]);
                }
            }
        }
    }
}

/// Every step before anything leaves: a question is only put once the bound,
/// the pairing, looking for the machine and making the corridor all went, in
/// that order.
pub proof fn nothing_leaves_before_every_step(went: Seq<bool>)
    requires
        walked(went) == CorridorStep::Put || walked(went) == CorridorStep::Answered,
    ensures
        went.len() >= 4,
        went[0] && went[1] && went[2] && went[3],
{
    a_walk_not_refused_went_every_step(went);
}

/// Never a fallback: a refusal is where a question ends, and nothing is asked
/// after it.
pub proof fn a_refusal_is_the_end(why: NotSent, went: bool)
    ensures
        after(CorridorStep::Refused(why), went) == CorridorStep::Refused(why),
{
}

/// A bound that refuses is answered before anything about the network is
/// asked.
pub proof fn the_bound_is_asked_before_the_network()
    ensures
        after(CorridorStep::AskTheBound, false) == CorridorStep::Refused(NotSent::ByARule),
{
}

/// Where a question down the corridor goes, and what it is shown and kept
/// as.
#[derive(Debug, Clone, PartialEq, Eq)]
pub struct Departure {
    /// What the machine is looked for by, on the network.
    pub looked_for: String,
    /// What the corridor is made to and the question is put to.
    pub asked: String,
    /// What the indicator shows and the record keeps as the destination.
    pub shown_as: String,
}

/// Where a question to the chosen machine goes: it is looked for and asked by
/// its identity, and never by the name the person here gave it, which only
/// ever names the departure on this machine.
pub fn departure(identity: &str, named: Option<String>) -> (departing: Departure)
    ensures
        departing.looked_for@ == identity@,
        departing.asked@ == identity@,
        departing.shown_as@ == shown_as(named, identity@),
{
    Departure {
        looked_for: identity.to_owned(),
        asked: identity.to_owned(),
        shown_as: called(named, identity),
    }
}

/// The name never crosses: whatever the person here called the chosen
/// machine, what is looked for and what is asked is its identity, and the name
/// appears only as what the departure is shown as.
pub proof fn the_name_never_crosses(identity: Seq<char>, named: Option<String>, d: Departure)
    requires
        d.looked_for@ == identity,
        d.asked@ == identity,
        d.shown_as@ == shown_as(named, identity),
        named matches Some(name) && !is_blank(name@),
    ensures
        d.shown_as@ == named->0@,
        d.looked_for@ == identity && d.asked@ == identity,
{
}

/// Each step that does not go ends the question with its own reason: the
/// pairing or the corridor that will not be made as not paired, the machine
/// not found as not answering, the question put and not answered as nothing
/// answered.
pub proof fn each_step_refuses_in_its_own_words()
    ensures
        after(CorridorStep::AskThePairing, false) == CorridorStep::Refused(NotSent::NotPaired),
        after(CorridorStep::LookForIt, false) == CorridorStep::Refused(NotSent::DidNotAnswer),
        after(CorridorStep::MakeTheCorridor, false) == CorridorStep::Refused(NotSent::NotPaired),
        after(CorridorStep::Put, false) == CorridorStep::Refused(NotSent::NothingAnswered),
        after(CorridorStep::Answered, false) == CorridorStep::Answered,
{
}

/// When every step goes, the question is answered after exactly five.
pub proof fn every_step_going_is_an_answer()
    ensures
        walked(seq![true, true, true, true, true]) == CorridorStep::Answered,
        walked(seq![true, true, true, true]) == CorridorStep::Put,
{
    let s0 = Seq::<bool>::empty();
    let s1 = s0.push(true);
    let s2 = s1.push(true);
    let s3 = s2.push(true);
    let s4 = s3.push(true);
    let s5 = s4.push(true);
    assert(walked(s0) == CorridorStep::AskTheBound);
    assert(s1.drop_last() == s0 && s1.last());
    assert(s2.drop_last() == s1 && s2.last());
    assert(s3.drop_last() == s2 && s3.last());
    assert(s4.drop_last() == s3 && s4.last());
    assert(s5.drop_last() == s4 && s5.last());
    assert(walked(s1) == CorridorStep::AskThePairing);
    assert(walked(s2) == CorridorStep::LookForIt);
    assert(walked(s3) == CorridorStep::MakeTheCorridor);
    assert(walked(s4) == CorridorStep::Put);
    assert(walked(s5) == CorridorStep::Answered);
    assert(s4 =~= seq![true, true, true, true]);
    assert(s5 =~= seq![true, true, true, true, true]);
}

/// A machine is shown by the name given to it here when that name is not
/// blank, and by its identity otherwise.
pub proof fn a_machine_is_shown_by_its_name_or_its_identity(
    named: Option<String>,
    machine: Seq<char>,
)
    ensures
        named matches Some(name) && !is_blank(name@) ==> shown_as(named, machine) == named->0@,
        named is None ==> shown_as(named, machine) == machine,
        named matches Some(name) && is_blank(name@) ==> shown_as(named, machine) == machine,
{
}

} // verus!
