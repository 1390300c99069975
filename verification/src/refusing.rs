//! Every way a value from outside is refused, as values a caller can match on.

use vstd::prelude::*;
use vstd::string::StringExecFns;

use crate::decimal::{decimal, push_decimal};

verus! {

/// A number that is not a user or a group of this machine.
#[derive(Debug, Clone, Copy, PartialEq, Eq, Structural)]
pub enum NotAUser {
    /// `-1` offered as a user: what a Unix call answers when there is none.
    NoSuchUser,
    /// `-1` offered as a group, for the same reason.
    NoSuchGroup,
}

} // verus!

verus! {

/// Two logins that are not two sides of a machine.
#[derive(Debug, Clone, Copy, PartialEq, Eq, Structural)]
pub enum NotTwoSides {
    /// The person and the agent are one login.
    OneUser {
        /// The one login.
        uid: u32,
    },
    /// The agent is root, which is every authority at once.
    AgentAsRoot,
}

/// Every way a machine description is not believed.
#[derive(Debug, Clone, PartialEq, Eq)]
pub enum NotDescribed {
    /// A description of a shape this service does not read.
    AnotherFormat {
        /// The file it was read from.
        at: String,
        /// The shape it says it is.
        format: u32,
        /// The newest shape this service reads.
        reads: u32,
    },
    /// A policy written into a shape an older service would have ignored it in.
    APolicyNeedsANewerShape {
        /// The file it was read from.
        at: String,
        /// The shape it says it is.
        format: u32,
        /// The newest shape this service reads.
        reads: u32,
    },
    /// A `may-go` that is none of the places this service reads.
    NowhereNamedThat {
        /// What was written.
        said: String,
        /// Every place that could have been written, listed.
        every: String,
    },
    /// `in-a-region` with no region, or a region of nothing but spaces.
    NoRegionNamed,
    /// A region written beside a bound that would ignore it.
    ARegionThatBoundsNothing {
        /// The bound it was written beside.
        may_go: String,
    },
    /// Text that is not a description: what would not parse, and why.
    NotUnderstood {
        /// The file it was read from.
        at: String,
        /// What the reader said was wrong.
        why: String,
    },
    /// The two logins are not two sides.
    NotTwoSides(NotTwoSides),
    /// A number that is no user or group.
    NotAUser(NotAUser),
    /// A length of time that is no time at all, by the key it was written under.
    NoTimeAtAll {
        /// The key.
        what: &'static str,
    },
    /// A length of time of a week or more, by the key it was written under:
    /// an approval is never a session.
    TooLong {
        /// The key.
        what: &'static str,
    },
    /// A path that is relative, by the key it was written under.
    NotAbsolute {
        /// The key.
        what: &'static str,
        /// The path as written.
        at: String,
    },
    /// An agent with no name, or a name of nothing but spaces.
    Anonymous,
}

/// What a refusal to count a number as a user or a group says.
pub open spec fn not_a_user_says(why: NotAUser) -> Seq<char> {
    match why {
        NotAUser::NoSuchUser => "-1 is no user: it is what a Unix call answers when there is none"@,
        NotAUser::NoSuchGroup => "-1 is no group: it is what a Unix call answers when there is none"@,
    }
}

/// What a refusal of two logins says.
pub open spec fn not_two_sides_says(why: NotTwoSides) -> Seq<char> {
    match why {
        NotTwoSides::OneUser { uid } => "the person and the agent are one login, "@ + decimal(
            uid as nat,
        ),
        NotTwoSides::AgentAsRoot => "the agent is root, which is every authority there is"@,
    }
}

/// What a refusal of a description says, naming the file or the key somebody
/// has to go and edit.
pub open spec fn says(why: NotDescribed) -> Seq<char> {
    match why {
        NotDescribed::AnotherFormat { at, format, reads } => at@ + " is a description of format "@
            + decimal(format as nat) + ", and this alo OS reads format "@ + decimal(reads as nat)
            + " and older"@,
        NotDescribed::APolicyNeedsANewerShape { at, format, reads } => at@ + " says it is format "@
            + decimal(format as nat) + ", which cannot carry [questions]; a policy needs format "@
            + decimal(reads as nat),
        NotDescribed::NowhereNamedThat { said, every } => "questions.may-go is \""@ + said@
            + "\", which is nowhere this alo OS reads: it reads "@ + every@,
        NotDescribed::NoRegionNamed => "questions.may-go is in-a-region and questions.region names no region"@,
        NotDescribed::ARegionThatBoundsNothing { may_go } =>
            "questions.region is written beside questions.may-go = \""@ + may_go@
            + "\", which no region bounds"@,
        NotDescribed::NotUnderstood { at, why } => at@ + " is not a machine description: "@
            + why@,
        NotDescribed::NotTwoSides(sides) => not_two_sides_says(sides),
        NotDescribed::NotAUser(user) => not_a_user_says(user),
        NotDescribed::NoTimeAtAll { what } => what@ + " is no time at all"@,
        NotDescribed::TooLong { what } => what@ + " is a week or more, and an approval is never a session"@,
        NotDescribed::NotAbsolute { what, at } => what@ + " is \""@ + at@
            + "\", which is not an absolute path"@,
        NotDescribed::Anonymous => "agent.name names no agent, and a grant could never name it"@,
    }
}

impl NotDescribed {
    /// The refusal in words, for whoever has to edit the file.
    pub fn said(&self) -> (sentence: String)
        ensures
            sentence@ == says(*self),
    {
        match self {
            NotDescribed::AnotherFormat { at, format, reads } => {
                let mut s = at.clone();
                s.append(" is a description of format ");
                push_decimal(&mut s, *format as u64);
                s.append(", and this alo OS reads format ");
                push_decimal(&mut s, *reads as u64);
                s.append(" and older");
                s
            },
            NotDescribed::APolicyNeedsANewerShape { at, format, reads } => {
                let mut s = at.clone();
                s.append(" says it is format ");
                push_decimal(&mut s, *format as u64);
                s.append(", which cannot carry [questions]; a policy needs format ");
                push_decimal(&mut s, *reads as u64);
                s
            },
            NotDescribed::NowhereNamedThat { said, every } => {
                let mut s = "questions.may-go is \"".to_owned();
                s.append(said.as_str());
                s.append("\", which is nowhere this alo OS reads: it reads ");
                s.append(every.as_str());
                s
            },
            NotDescribed::NoRegionNamed => {
                "questions.may-go is in-a-region and questions.region names no region".to_owned()
            },
            NotDescribed::ARegionThatBoundsNothing { may_go } => {
                let mut s = "questions.region is written beside questions.may-go = \"".to_owned();
                s.append(may_go.as_str());
                s.append("\", which no region bounds");
                s
            },
            NotDescribed::NotUnderstood { at, why } => {
                let mut s = at.clone();
                s.append(" is not a machine description: ");
                s.append(why.as_str());
                s
            },
            NotDescribed::NotTwoSides(sides) => match sides {
                NotTwoSides::OneUser { uid } => {
                    let mut s = "the person and the agent are one login, ".to_owned();
                    push_decimal(&mut s, *uid as u64);
                    s
                },
                NotTwoSides::AgentAsRoot => {
                    "the agent is root, which is every authority there is".to_owned()
                },
            },
            NotDescribed::NotAUser(user) => match user {
                NotAUser::NoSuchUser => {
                    "-1 is no user: it is what a Unix call answers when there is none".to_owned()
                },
                NotAUser::NoSuchGroup => {
                    "-1 is no group: it is what a Unix call answers when there is none".to_owned()
                },
            },
            NotDescribed::NoTimeAtAll { what } => {
                let mut s = (*what).to_owned();
                s.append(" is no time at all");
                s
            },
            NotDescribed::TooLong { what } => {
                let mut s = (*what).to_owned();
                s.append(" is a week or more, and an approval is never a session");
                s
            },
            NotDescribed::NotAbsolute { what, at } => {
                let mut s = (*what).to_owned();
                s.append(" is \"");
                s.append(at.as_str());
                s.append("\", which is not an absolute path");
                s
            },
            NotDescribed::Anonymous => {
                "agent.name names no agent, and a grant could never name it".to_owned()
            },
        }
    }
}

/// A refusal names what somebody has to go and edit at the start of its
/// sentence: the file for a description of another shape or one not
/// understood, and the key for a length of time or a path — and a path or a
/// parser's reason is carried whole.
pub proof fn a_refusal_names_what_to_edit(why: NotDescribed)
    ensures
        why matches NotDescribed::AnotherFormat { at, .. } ==> says(why).subrange(
            0,
            at@.len() as int,
        ) == at@,
        why matches NotDescribed::APolicyNeedsANewerShape { at, .. } ==> says(why).subrange(
            0,
            at@.len() as int,
        ) == at@,
        why matches NotDescribed::NotUnderstood { at, why: reason } ==> says(why).subrange(
            0,
            at@.len() as int,
        ) == at@ && says(why).subrange(
            says(why).len() - reason@.len(),
            says(why).len() as int,
        ) == reason@,
        why matches NotDescribed::NoTimeAtAll { what } ==> says(why).subrange(
            0,
            what@.len() as int,
        ) == what@,
        why matches NotDescribed::TooLong { what } ==> says(why).subrange(0, what@.len() as int)
            == what@,
        why matches NotDescribed::NotAbsolute { what, at } ==> says(why).subrange(
            0,
            what@.len() as int,
        ) == what@ && says(why).subrange(
            what@.len() + 5 as int,
            what@.len() + 5 + at@.len() as int,
        ) == at@,
{
    reveal_strlit(" is \"");
    match why {
        NotDescribed::AnotherFormat { at, format, reads } => {
            assert(says(why).subrange(0, at@.len() as int) =~= at@);
        },
        NotDescribed::APolicyNeedsANewerShape { at, format, reads } => {
            assert(says(why).subrange(0, at@.len() as int) =~= at@);
        },
        NotDescribed::NotUnderstood { at, why: reason } => {
            assert(says(why).subrange(0, at@.len() as int) =~= at@);
            assert(says(why).subrange(says(why).len() - reason@.len(), says(why).len() as int)
                =~= reason@);
        },
        NotDescribed::NoTimeAtAll { what } => {
            assert(says(why).subrange(0, what@.len() as int) =~= what@);
        },
        NotDescribed::TooLong { what } => {
            assert(says(why).subrange(0, what@.len() as int) =~= what@);
        },
        NotDescribed::NotAbsolute { what, at } => {
            assert(says(why).subrange(0, what@.len() as int) =~= what@);
            assert(says(why).subrange(what@.len() + 5 as int, what@.len() + 5 + at@.len() as int) =~= at@);
        },
        _ => {},
    }
}

} // verus!
