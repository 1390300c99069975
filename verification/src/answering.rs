//! What one request from the person's shell is answered with, against the turn
//! under way — or against none, because a shell is signed in for far longer
//! than any agent's turn lasts.
//!
//! A number off the wire is not a handle: it is found among what is really
//! waiting, and a number nothing is waiting under is refused with the same
//! sentence whether the turn ended a moment ago or never began. *What is
//! waiting* on a machine with no turn is the same empty list a turn with
//! nothing outstanding gives, because to the person they are one fact.

use vstd::prelude::*;

verus! {

/// What the person can send about a turn.
#[derive(Debug, Clone, Copy, PartialEq, Eq, Structural)]
pub enum FromAPerson {
    /// What is waiting for an answer?
    Waiting,
    /// What I granted has changed.
    Granted,
    /// Approve the change waiting under this number.
    Approve { number: u64 },
    /// Decline the change waiting under this number.
    Decline { number: u64 },
}

impl FromAPerson {
    /// The number a request names, if it names one.
    pub open spec fn spec_number(self) -> Option<u64> {
        match self {
            FromAPerson::Approve { number } => Some(number),
            FromAPerson::Decline { number } => Some(number),
            _ => None,
        }
    }

    /// The number this request names, if it names one.
    pub fn number(&self) -> (number: Option<u64>)
        ensures
            number == self.spec_number(),
    {
        match self {
            FromAPerson::Approve { number } => Some(*number),
            FromAPerson::Decline { number } => Some(*number),
            _ => None,
        }
    }
}

/// What a request is answered with.
#[derive(Debug, Clone, PartialEq, Eq)]
pub enum Reply {
    /// These are waiting, in the order the turn holds them.
    Waiting(Vec<u64>),
    /// Nothing is waiting under this number: the capability model's own
    /// refusal.
    NothingIsWaiting { number: u64 },
    /// What is granted was not read again.
    NotReadAgain,
    /// The change waiting under this handle is approved, through the turn.
    Approving(u64),
    /// The change waiting under this handle is declined, through the turn.
    Declining(u64),
    /// What is granted changed: read it again, turn or no turn.
    ReadAgain,
    /// What is granted was read again: this many grants.
    Granted(u64),
    /// What arrived was not a request, refused in these words.
    NotARequest(String),
}

/// Whether `reply` is what `answered` is answered with, where `turning` is
/// what is waiting in the turn under way, or `None` when there is no turn.
pub open spec fn replied(answered: FromAPerson, turning: Option<Seq<u64>>, reply: Reply) -> bool {
    match turning {
        None => match answered.spec_number() {
            Some(number) => reply == (Reply::NothingIsWaiting { number }),
            None => reply matches Reply::Waiting(listed) && listed@ == Seq::<u64>::empty(),
        },
        Some(waiting) => match answered {
            FromAPerson::Waiting => reply matches Reply::Waiting(listed) && listed@ == waiting,
            FromAPerson::Granted => reply == Reply::NotReadAgain,
            FromAPerson::Approve { number } => if waiting.contains(number) {
                reply == Reply::Approving(number)
            } else {
                reply == (Reply::NothingIsWaiting { number })
            },
            FromAPerson::Decline { number } => if waiting.contains(number) {
                reply == Reply::Declining(number)
            } else {
                reply == (Reply::NothingIsWaiting { number })
            },
        },
    }
}

/// The change really waiting under this number, if one is.
pub fn under(waiting: &Vec<u64>, number: u64) -> (found: Option<u64>)
    ensures
        found == (if waiting@.contains(number) {
            Some(number)
        } else {
            None::<u64>
        }),
{
    let mut k: usize = 0;
    while k < waiting.len()
        invariant
            k <= waiting.len(),
            forall|j: int| 0 <= j < k ==> waiting@[j] != number,
        decreases waiting.len() - k,
    {
        if waiting[k] == number {
            return Some(waiting[k]);
        }
        k += 1;
    }
    None
}

/// What the person's request about a turn is answered with, against the
/// turn under way if there is one.
pub fn answered_to(answered: FromAPerson, turning: Option<&Vec<u64>>) -> (reply: Reply)
    ensures
        replied(
            answered,
            match turning {
                Some(w) => Some(w@),
                None => None,
            },
            reply,
        ),
{
    let Some(waiting) = turning else {
        return match answered.number() {
            Some(number) => Reply::NothingIsWaiting { number },
            None => Reply::Waiting(Vec::new()),
        };
    };
    match answered {
        FromAPerson::Waiting => Reply::Waiting(waiting.clone()),
        FromAPerson::Granted => Reply::NotReadAgain,
        FromAPerson::Approve { number } => match under(waiting, number) {
            Some(handle) => Reply::Approving(handle),
            None => Reply::NothingIsWaiting { number },
        },
        FromAPerson::Decline { number } => match under(waiting, number) {
            Some(handle) => Reply::Declining(handle),
            None => Reply::NothingIsWaiting { number },
        },
    }
}

/// Nothing is waiting is an answer, not a refusal: asking what is waiting on
/// a machine with no turn gets the same empty list as a turn with nothing
/// outstanding.
pub proof fn no_turn_and_nothing_outstanding_are_one_fact(r1: Reply, r2: Reply)
    requires
        replied(FromAPerson::Waiting, None, r1),
        replied(FromAPerson::Waiting, Some(Seq::<u64>::empty()), r2),
    ensures
        r1 matches Reply::Waiting(a) && r2 matches Reply::Waiting(b) && a@ == b@,
{
}

/// A number nothing is waiting under is refused the same way whether a turn
/// is under way or not: the answer does not depend on whether the agent has
/// hung up yet.
pub proof fn a_number_not_waiting_is_refused_alike(
    answered: FromAPerson,
    waiting: Seq<u64>,
    in_a_turn: Reply,
    with_no_turn: Reply,
)
    requires
        answered.spec_number() matches Some(n) && !waiting.contains(n),
        replied(answered, Some(waiting), in_a_turn),
        replied(answered, None, with_no_turn),
    ensures
        in_a_turn == with_no_turn,
        with_no_turn == (Reply::NothingIsWaiting { number: answered.spec_number()->0 }),
{
}

/// A change is only ever approved or declined under a number that is really
/// waiting in the turn under way: a number is never turned into a handle.
pub proof fn only_what_is_waiting_is_answered(
    answered: FromAPerson,
    turning: Option<Seq<u64>>,
    reply: Reply,
)
    requires
        replied(answered, turning, reply),
    ensures
        reply matches Reply::Approving(h) ==> (turning matches Some(w) && w.contains(h)),
        reply matches Reply::Declining(h) ==> (turning matches Some(w) && w.contains(h)),
{
}

/// One line from the person's shell, as the protocol read it, answered:
/// a message that was not a request is refused in the protocol's own words;
/// what is granted having changed is read again whether or not a turn is under
/// way; anything else is answered against the turn, if there is one.
pub fn what_a_person_said(read: Result<FromAPerson, String>, turning: Option<&Vec<u64>>) -> (reply:
    Reply)
    ensures
        read matches Err(why) ==> reply == Reply::NotARequest(why),
        read == Ok::<FromAPerson, String>(FromAPerson::Granted) ==> reply == Reply::ReadAgain,
        read matches Ok(answered) ==> (answered != FromAPerson::Granted ==> replied(
            answered,
            match turning {
                Some(w) => Some(w@),
                None => None,
            },
            reply,
        )),
{
    match read {
        Ok(FromAPerson::Granted) => Reply::ReadAgain,
        Ok(answered) => answered_to(answered, turning),
        Err(why) => Reply::NotARequest(why),
    }
}

/// What reading the grants again is answered with, and whether the refusal is
/// written down.
#[derive(Debug, Clone, PartialEq, Eq)]
pub struct AfterRereading {
    /// What the person is told.
    pub reply: Reply,
    /// Whether the record keeps that the grants were not read again.
    pub written_down: bool,
    /// The English for whoever is standing the machine up, if any.
    pub for_the_log: Option<String>,
}

/// What the person is told once the grants were read again — how many there
/// now are — or, when they could not be, the one sentence that is also
/// written down, with the reason for the service log.
pub fn what_is_granted_changed(read_again: Result<u64, String>) -> (after: AfterRereading)
    ensures
        read_again matches Ok(how_many) ==> after == (AfterRereading {
            reply: Reply::Granted(how_many),
            written_down: false,
            for_the_log: None,
        }),
        read_again matches Err(why) ==> after == (AfterRereading {
            reply: Reply::NotReadAgain,
            written_down: true,
            for_the_log: Some(why),
        }),
{
    match read_again {
        Ok(how_many) => AfterRereading {
            reply: Reply::Granted(how_many),
            written_down: false,
            for_the_log: None,
        },
        Err(why) => AfterRereading {
            reply: Reply::NotReadAgain,
            written_down: true,
            for_the_log: Some(why),
        },
    }
}

/// Every change really waiting in the turn under way can be answered under
/// its number, wherever it stands among what is waiting: approving it
/// approves that change and declining it declines that change.
pub proof fn every_change_waiting_can_be_answered(
    number: u64,
    waiting: Seq<u64>,
    approved: Reply,
    declined: Reply,
)
    requires
        waiting.contains(number),
        replied(FromAPerson::Approve { number }, Some(waiting), approved),
        replied(FromAPerson::Decline { number }, Some(waiting), declined),
    ensures
        approved == Reply::Approving(number),
        declined == Reply::Declining(number),
{
}

/// Asking what is waiting in a turn lists exactly what the turn holds, in
/// its order — nothing left out and nothing added.
pub proof fn what_is_waiting_is_listed_as_it_stands(waiting: Seq<u64>, reply: Reply)
    requires
        replied(FromAPerson::Waiting, Some(waiting), reply),
    ensures
        reply matches Reply::Waiting(listed) && listed@ == waiting,
{
}

/// An approval and a decline of the same number are answered alike: both
/// reach the change when it is waiting, and neither does when it is not.
pub proof fn approving_and_declining_find_the_same_changes(
    number: u64,
    turning: Option<Seq<u64>>,
    approved: Reply,
    declined: Reply,
)
    requires
        replied(FromAPerson::Approve { number }, turning, approved),
        replied(FromAPerson::Decline { number }, turning, declined),
    ensures
        approved == Reply::Approving(number) <==> declined == Reply::Declining(number),
        approved == (Reply::NothingIsWaiting { number }) <==> declined == (
        Reply::NothingIsWaiting { number }),
{
}

/// With no turn under way, what is waiting is nothing, and any number is
/// refused as nothing waiting under it; within a turn, what is granted having
/// changed is answered with the sentence of a list not read again.
pub proof fn with_no_turn_nothing_is_waiting(answered: FromAPerson, reply: Reply)
    requires
        replied(answered, None, reply),
    ensures
        answered matches FromAPerson::Approve { number } ==> reply == (Reply::NothingIsWaiting {
            number,
        }),
        answered matches FromAPerson::Decline { number } ==> reply == (Reply::NothingIsWaiting {
            number,
        }),
        answered is Waiting ==> (reply matches Reply::Waiting(listed) && listed@.len() == 0),
        !(reply is Approving) && !(reply is Declining),
{
}

/// Within a turn, what is granted having changed reaching the turn is
/// answered as grants that were not read again, whatever is waiting.
pub proof fn granted_within_a_turn_is_not_read_again(waiting: Seq<u64>, reply: Reply)
    requires
        replied(FromAPerson::Granted, Some(waiting), reply),
    ensures
        reply == Reply::NotReadAgain,
{
}

} // verus!
