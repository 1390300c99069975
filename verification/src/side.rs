//! The two logins a machine has — the person and the agent — and the group
//! they meet in.
//!
//! A machine whose person and agent are one login has no boundary between
//! them, and an agent running as root has every authority there is: both are
//! refused here, one login first.

use vstd::prelude::*;

use crate::caller::{Gid, Uid};
use crate::refusing::NotTwoSides;

verus! {

/// The person, the agent, and the group they meet in.
#[derive(Debug, Clone, Copy, PartialEq, Eq, Structural)]
pub struct Sides {
    /// The signed-in person.
    person: Uid,
    /// The agent, a login of its own.
    agent: Uid,
    /// The group that may reach the socket at all.
    group: Gid,
}

impl Sides {
    /// Two logins, and the agent is not root.
    #[verifier::type_invariant]
    spec fn two_sides(self) -> bool {
        &&& self.person.number() != self.agent.number()
        &&& self.agent.number() != 0
    }

    /// The person.
    pub closed spec fn spec_person(self) -> Uid {
        self.person
    }

    /// The agent.
    pub closed spec fn spec_agent(self) -> Uid {
        self.agent
    }

    /// The group.
    pub closed spec fn spec_group(self) -> Gid {
        self.group
    }

    /// These two logins as a machine's two sides, or why they are not.
    pub fn of(person: Uid, agent: Uid, group: Gid) -> (sides: Result<Sides, NotTwoSides>)
        ensures
            person.number() == agent.number() ==> sides == Err::<Sides, NotTwoSides>(
                NotTwoSides::OneUser { uid: person.number() },
            ),
            person.number() != agent.number() && agent.number() == 0 ==> sides == Err::<
                Sides,
                NotTwoSides,
            >(NotTwoSides::AgentAsRoot),
            person.number() != agent.number() && agent.number() != 0 ==> (sides matches Ok(s)
                && s.spec_person() == person && s.spec_agent() == agent && s.spec_group()
                == group),
    {
        if person.raw() == agent.raw() {
            return Err(NotTwoSides::OneUser { uid: person.raw() });
        }
        if agent.is_root() {
            return Err(NotTwoSides::AgentAsRoot);
        }
        Ok(Sides { person, agent, group })
    }

    /// The person.
    pub fn person(&self) -> (person: Uid)
        ensures
            person == self.spec_person(),
            person.number() != self.spec_agent().number(),
    {
        proof {
            use_type_invariant(self);
        }
        self.person
    }

    /// The agent, which is never root and never the person.
    pub fn agent(&self) -> (agent: Uid)
        ensures
            agent == self.spec_agent(),
            agent.number() != 0,
            agent.number() != self.spec_person().number(),
    {
        proof {
            use_type_invariant(self);
        }
        self.agent
    }

    /// The group.
    pub fn group(&self) -> (group: Gid)
        ensures
            group == self.spec_group(),
    {
        self.group
    }
}

} // verus!
