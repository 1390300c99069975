//! What a machine says about itself, once it has been believed: its two
//! logins, its agent's name, how long a turn lasts and a change waits, where
//! what happened is written down and how long it is kept, and where its
//! questions may go.
//!
//! [`Described::of`] is the one door. The sides and the lengths of time have
//! already refused what they refuse; what is left here is an agent with no
//! name — a grant could never name it — and a record path that is relative,
//! which would put the evidence wherever the service happened to start.
//! The name is used exactly as written: nothing trims or lowercases it.

use vstd::prelude::*;
use vstd::string::StrSliceExecFns;

use crate::ageing::Keeping;
use crate::describing::{THE_RECORD, TheBound};
use crate::lasting::Lasting;
use crate::refusing::NotDescribed;
use crate::side::Sides;
use crate::text::{blank, is_blank};

verus! {

/// Whether a path is absolute: on Unix, one that starts at `/`.
pub open spec fn is_absolute(path: Seq<char>) -> bool {
    path.len() > 0 && path[0] == '/'
}

/// What this machine says about itself.
#[derive(Debug, Clone, PartialEq, Eq)]
pub struct Described {
    /// The two logins and the group they meet in.
    sides: Sides,
    /// The agent, as the grants name it.
    agent: String,
    /// How long a turn's own grant lasts.
    turn: Lasting,
    /// How long a change waits for an answer.
    proposal: Lasting,
    /// Where what happened is written down.
    record: String,
    /// How long it is kept.
    keeping: Keeping,
    /// Where questions may go, and whose rule that is.
    questions: TheBound,
}

impl Described {
    /// The two logins.
    pub closed spec fn spec_sides(self) -> Sides {
        self.sides
    }

    /// The agent's name.
    pub closed spec fn spec_agent(self) -> Seq<char> {
        self.agent@
    }

    /// How long a turn lasts.
    pub closed spec fn spec_turn(self) -> Lasting {
        self.turn
    }

    /// How long a change waits.
    pub closed spec fn spec_proposal(self) -> Lasting {
        self.proposal
    }

    /// Where the record is.
    pub closed spec fn spec_record(self) -> Seq<char> {
        self.record@
    }

    /// How long the record is kept.
    pub closed spec fn spec_keeping(self) -> Keeping {
        self.keeping
    }

    /// The bound on questions.
    pub closed spec fn spec_questions(self) -> TheBound {
        self.questions
    }

    /// A machine described this way, or why it is not one: an agent with no
    /// name first, then a record path that is relative.
    pub fn of(
        sides: Sides,
        agent: &str,
        turn: Lasting,
        proposal: Lasting,
        record: &str,
        keeping: Keeping,
        questions: TheBound,
    ) -> (made: Result<Described, NotDescribed>)
        ensures
            is_blank(agent@) ==> made == Err::<Described, NotDescribed>(NotDescribed::Anonymous),
            !is_blank(agent@) && !is_absolute(record@) ==> (made matches Err(
                NotDescribed::NotAbsolute { what, at },
            ) && what@ == THE_RECORD@ && at@ == record@),
            !is_blank(agent@) && is_absolute(record@) ==> (made matches Ok(d) && d.spec_sides()
                == sides && d.spec_agent() == agent@ && d.spec_turn() == turn && d.spec_proposal()
                == proposal && d.spec_record() == record@ && d.spec_keeping() == keeping
                && d.spec_questions() == questions),
    {
        if blank(agent) {
            return Err(NotDescribed::Anonymous);
        }
        if !(record.unicode_len() > 0 && record.get_char(0) == '/') {
            return Err(NotDescribed::NotAbsolute { what: THE_RECORD, at: record.to_owned() });
        }
        Ok(
            Described {
                sides,
                agent: agent.to_owned(),
                turn,
                proposal,
                record: record.to_owned(),
                keeping,
                questions,
            },
        )
    }

    /// The two logins this machine has, and the group they meet in.
    pub fn sides(&self) -> (sides: Sides)
        ensures
            sides == self.spec_sides(),
    {
        self.sides
    }

    /// The agent this machine has, as the grants name it.
    pub fn agent(&self) -> (agent: &str)
        ensures
            agent@ == self.spec_agent(),
    {
        self.agent.as_str()
    }

    /// How long a turn's own grant lasts.
    pub fn turn(&self) -> (turn: Lasting)
        ensures
            turn == self.spec_turn(),
    {
        self.turn
    }

    /// How long a change waits for an answer.
    pub fn proposal(&self) -> (proposal: Lasting)
        ensures
            proposal == self.spec_proposal(),
    {
        self.proposal
    }

    /// Where what happened on this machine is written down.
    pub fn record(&self) -> (record: &str)
        ensures
            record@ == self.spec_record(),
    {
        self.record.as_str()
    }

    /// How long the record is kept.
    pub fn keeping(&self) -> (keeping: Keeping)
        ensures
            keeping == self.spec_keeping(),
    {
        self.keeping
    }

    /// Where questions on this machine may go, and whose rule that is.
    pub fn questions(&self) -> (questions: &TheBound)
        ensures
            *questions == self.spec_questions(),
    {
        &self.questions
    }
}

} // verus!
