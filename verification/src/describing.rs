//! What a machine description says before it is believed: which shape of
//! description it is, and where an organisation — or the person — permits a
//! question to be answered.
//!
//! A description that says a format this service does not read is refused
//! rather than guessed at. `2` is the shape since `[questions]`; `1` is still
//! read, and a `1` that carries `[questions]` is refused, because an older
//! service would have read it while ignoring the policy.
//!
//! [`AsWritten::checked`] is the one road from what was typed to a
//! [`Described`]: the shape first, then the three numbers, the two logins as
//! two sides, the bound, the two lengths of time, the agent's name and the
//! record's path. Nothing has a default.
//!
//! `[questions]` is the one optional section. Absent, the machine has no bound
//! at all. Present, every way it does not hold is a refusal: nothing here is
//! ever read as unrestricted.

use vstd::prelude::*;
use vstd::string::StringExecFns;

use crate::ageing::Keeping;
use crate::caller::{Gid, NOBODY_AT_ALL, Uid};
use crate::described::{Described, is_absolute};
use crate::lasting::{A_WEEK, Lasting};
use crate::refusing::{NotAUser, NotDescribed, NotTwoSides};
use crate::side::Sides;
use crate::text::{blank, is_blank, same};

verus! {

/// Where `alo-agentd` reads its description from.
pub const THE_DESCRIPTION: &'static str = "/etc/alo/agentd.toml";

/// The shape of description this alo OS writes, and the newest it reads.
pub const THE_FORMAT: u32 = 2;

/// Every older shape this alo OS still reads, oldest first.
pub const ALSO_READ: [u32; 1] = [1];

/// The key the agent's name is written under.
pub const THE_NAME: &'static str = "agent.name";

/// The key a turn's length is written under.
pub const THE_TURN: &'static str = "agent.turn-seconds";

/// The key a proposal's length is written under.
pub const THE_PROPOSAL: &'static str = "agent.proposal-seconds";

/// The key the record's path is written under.
pub const THE_RECORD: &'static str = "record.path";

/// The key an organisation's bound is written under.
pub const THE_MAY_GO: &'static str = "questions.may-go";

/// The key the region that bound names is written under.
pub const THE_REGION: &'static str = "questions.region";

/// Anywhere the person chooses.
pub const ANYWHERE: &'static str = "anywhere";

/// Local and paired machines only.
pub const IN_THE_BUILDING: &'static str = "in-the-building";

/// Anything declared to run in the region [`THE_REGION`] names.
pub const IN_A_REGION: &'static str = "in-a-region";

/// This machine, and nowhere else at all.
pub const THIS_MACHINE_ONLY: &'static str = "this-machine-only";

/// Every `may-go` this service reads, in the order a refusal lists them.
pub const EVERY_PLACE: [&'static str; 4] = [ANYWHERE, IN_THE_BUILDING, IN_A_REGION, THIS_MACHINE_ONLY];

/// Whether this alo OS reads a description of this shape.
pub open spec fn reads(format: u32) -> bool {
    format == THE_FORMAT || format == ALSO_READ@[0]
}

/// Whether this alo OS reads a description that says it is this shape.
pub fn is_a_shape_we_read(format: u32) -> (read: bool)
    ensures
        read == reads(format),
        read <==> (format == 1 || format == 2),
{
    format == THE_FORMAT || format == ALSO_READ[0]
}

/// Where a question may be answered, as an organisation or the person bounds it.
#[derive(Debug, Clone, PartialEq, Eq)]
pub enum SourcePolicy {
    /// Anywhere the person chooses.
    Anywhere,
    /// Local and paired machines only.
    InTheBuilding,
    /// This machine only.
    ThisMachineOnly,
    /// Anything declared to run in the region named, exactly as it was named.
    InRegion(String),
}

/// `[questions]` exactly as it was typed.
#[derive(Debug, Clone, PartialEq, Eq)]
pub struct TheQuestions {
    /// Which of [`EVERY_PLACE`] is permitted.
    pub may_go: String,
    /// Which region, and only where `may-go` is [`IN_A_REGION`].
    pub region: Option<String>,
}

/// Whether this spelling is one of the places this service reads.
pub open spec fn is_a_place(may_go: Seq<char>) -> bool {
    ||| may_go == ANYWHERE@
    ||| may_go == IN_THE_BUILDING@
    ||| may_go == IN_A_REGION@
    ||| may_go == THIS_MACHINE_ONLY@
}

/// Every place this service reads, listed the way a refusal says them.
pub open spec fn every_place_listed() -> Seq<char> {
    ANYWHERE@ + ", "@ + IN_THE_BUILDING@ + ", "@ + IN_A_REGION@ + ", "@ + THIS_MACHINE_ONLY@
}

/// What `[questions]` with this `may-go` and this region is read as.
///
/// An unknown spelling is answered first, before the region beside it; a
/// region is required by `in-a-region` and refused beside anything else.
pub open spec fn read_as(
    may_go: String,
    region: Option<String>,
    result: Result<SourcePolicy, NotDescribed>,
) -> bool {
    if !is_a_place(may_go@) {
        result matches Err(NotDescribed::NowhereNamedThat { said, every })
            && said == may_go && every@ == every_place_listed()
    } else if may_go@ == ANYWHERE@ && region is None {
        result == Ok::<SourcePolicy, NotDescribed>(SourcePolicy::Anywhere)
    } else if may_go@ == IN_THE_BUILDING@ && region is None {
        result == Ok::<SourcePolicy, NotDescribed>(SourcePolicy::InTheBuilding)
    } else if may_go@ == THIS_MACHINE_ONLY@ && region is None {
        result == Ok::<SourcePolicy, NotDescribed>(SourcePolicy::ThisMachineOnly)
    } else if may_go@ == IN_A_REGION@ {
        match region {
            Some(r) => if is_blank(r@) {
                result == Err::<SourcePolicy, NotDescribed>(NotDescribed::NoRegionNamed)
            } else {
                result == Ok::<SourcePolicy, NotDescribed>(SourcePolicy::InRegion(r))
            },
            None => result == Err::<SourcePolicy, NotDescribed>(NotDescribed::NoRegionNamed),
        }
    } else {
        result == Err::<SourcePolicy, NotDescribed>(
            NotDescribed::ARegionThatBoundsNothing { may_go },
        )
    }
}

/// Every place this service reads, listed for a refusal.
fn every_place() -> (every: String)
    ensures
        every@ == every_place_listed(),
{
    let mut every = ANYWHERE.to_owned();
    every.append(", ");
    every.append(IN_THE_BUILDING);
    every.append(", ");
    every.append(IN_A_REGION);
    every.append(", ");
    every.append(THIS_MACHINE_ONLY);
    every
}

impl TheQuestions {
    /// This section as the rule it states, or why it states none.
    pub fn checked(self) -> (rule: Result<SourcePolicy, NotDescribed>)
        ensures
            read_as(self.may_go, self.region, rule),
    {
        let may_go = self.may_go;
        let anywhere = same(may_go.as_str(), ANYWHERE);
        let in_the_building = same(may_go.as_str(), IN_THE_BUILDING);
        let in_a_region = same(may_go.as_str(), IN_A_REGION);
        let this_machine_only = same(may_go.as_str(), THIS_MACHINE_ONLY);
        if !(anywhere || in_the_building || in_a_region || this_machine_only) {
            return Err(NotDescribed::NowhereNamedThat { said: may_go, every: every_place() });
        }
        match self.region {
            None => {
                if anywhere {
                    Ok(SourcePolicy::Anywhere)
                } else if in_the_building {
                    Ok(SourcePolicy::InTheBuilding)
                } else if this_machine_only {
                    Ok(SourcePolicy::ThisMachineOnly)
                } else {
                    Err(NotDescribed::NoRegionNamed)
                }
            },
            Some(region) => {
                if in_a_region {
                    if blank(region.as_str()) {
                        Err(NotDescribed::NoRegionNamed)
                    } else {
                        Ok(SourcePolicy::InRegion(region))
                    }
                } else {
                    Err(NotDescribed::ARegionThatBoundsNothing { may_go })
                }
            },
        }
    }
}

/// Which of the two permitted owners wrote a description: it decides the
/// origin of a bound and nothing else.
#[derive(Debug, Clone, Copy, PartialEq, Eq, Structural)]
pub enum WhoDescribedIt {
    /// Root wrote it, for an organisation.
    AnAdministrator,
    /// The person whose machine it is wrote it.
    ThePerson,
}

/// Where questions on this machine may go, and whose rule that is.
#[derive(Debug, Clone, PartialEq, Eq)]
pub enum TheBound {
    /// No `[questions]` at all: no rule, and nobody to name in a refusal.
    Nobodys,
    /// A rule an administrator wrote, for the organisation managing the machine.
    AnOrganisations(SourcePolicy),
    /// The same kind of rule, written by the person themselves.
    ThePersons(SourcePolicy),
}

impl TheBound {
    /// The rule this bound states, whoever stated it.
    pub open spec fn rule(&self) -> Option<SourcePolicy> {
        match self {
            TheBound::Nobodys => None,
            TheBound::AnOrganisations(p) => Some(*p),
            TheBound::ThePersons(p) => Some(*p),
        }
    }

    /// Whether an organisation set this bound.
    pub fn by_an_organisation(&self) -> (theirs: bool)
        ensures
            theirs == (self is AnOrganisations),
    {
        match self {
            TheBound::AnOrganisations(_) => true,
            _ => false,
        }
    }

    /// The rule this bound states, whoever stated it, or none.
    pub fn policy(&self) -> (rule: Option<&SourcePolicy>)
        ensures
            rule matches Some(p) ==> self.rule() == Some(*p),
            rule is None <==> self.rule() is None,
    {
        match self {
            TheBound::Nobodys => None,
            TheBound::AnOrganisations(p) => Some(p),
            TheBound::ThePersons(p) => Some(p),
        }
    }
}

/// What a description's `[questions]`, written by `who`, bounds this machine
/// with: nobody's bound where there is no section, otherwise the section's
/// rule under the origin of the file.
pub open spec fn bound_as(
    questions: Option<TheQuestions>,
    who: WhoDescribedIt,
    bound: Result<TheBound, NotDescribed>,
) -> bool {
    match questions {
        None => bound == Ok::<TheBound, NotDescribed>(TheBound::Nobodys),
        Some(q) => exists|rule: Result<SourcePolicy, NotDescribed>|
            #[trigger] read_as(q.may_go, q.region, rule) && match rule {
                Err(why) => bound == Err::<TheBound, NotDescribed>(why),
                Ok(p) => match who {
                    WhoDescribedIt::AnAdministrator => bound == Ok::<TheBound, NotDescribed>(
                        TheBound::AnOrganisations(p),
                    ),
                    WhoDescribedIt::ThePerson => bound == Ok::<TheBound, NotDescribed>(
                        TheBound::ThePersons(p),
                    ),
                },
            },
    }
}

/// The bound a description's `[questions]` puts on this machine, with the
/// origin `who` gives it.
pub fn bound_of(questions: Option<TheQuestions>, who: WhoDescribedIt) -> (bound: Result<
    TheBound,
    NotDescribed,
>)
    ensures
        bound_as(questions, who, bound),
{
    match questions {
        None => Ok(TheBound::Nobodys),
        Some(q) => {
            let rule = q.checked();
            match rule {
                Err(why) => Err(why),
                Ok(p) => match who {
                    WhoDescribedIt::AnAdministrator => Ok(TheBound::AnOrganisations(p)),
                    WhoDescribedIt::ThePerson => Ok(TheBound::ThePersons(p)),
                },
            }
        },
    }
}

/// Whether a description of this shape, with or without `[questions]`, is
/// read, and if not which refusal it gets.
pub open spec fn shape_as(format: u32, with_questions: bool, at: Seq<char>, shape: Result<
    (),
    NotDescribed,
>) -> bool {
    if !reads(format) {
        shape matches Err(NotDescribed::AnotherFormat { at: said, format: f, reads: r })
            && said@ == at && f == format && r == THE_FORMAT
    } else if format < THE_FORMAT && with_questions {
        shape matches Err(NotDescribed::APolicyNeedsANewerShape { at: said, format: f, reads: r })
            && said@ == at && f == format && r == THE_FORMAT
    } else {
        shape == Ok::<(), NotDescribed>(())
    }
}

/// The first thing asked of a description read from `at`: is it a shape this
/// service reads, and can that shape carry the policy it holds.
pub fn shape_checked(format: u32, with_questions: bool, at: &str) -> (shape: Result<(), NotDescribed>)
    ensures
        shape_as(format, with_questions, at@, shape),
{
    if !is_a_shape_we_read(format) {
        return Err(NotDescribed::AnotherFormat { at: at.to_owned(), format, reads: THE_FORMAT });
    }
    if format < THE_FORMAT && with_questions {
        return Err(
            NotDescribed::APolicyNeedsANewerShape { at: at.to_owned(), format, reads: THE_FORMAT },
        );
    }
    Ok(())
}

/// One `[questions]` is read one way: whether it holds, and if it does, the
/// rule it states.
proof fn one_reading(
    may_go: String,
    region: Option<String>,
    x: Result<SourcePolicy, NotDescribed>,
    y: Result<SourcePolicy, NotDescribed>,
)
    requires
        read_as(may_go, region, x),
        read_as(may_go, region, y),
    ensures
        x is Ok <==> y is Ok,
        x is Ok ==> x == y,
{
}

/// The same `[questions]` bounds a machine identically whether an
/// administrator or the person wrote the file: it holds or is refused alike,
/// states the same rule, and only whose rule it is differs.
pub proof fn the_origin_is_the_files_and_nothing_else(
    q: TheQuestions,
    theirs: Result<TheBound, NotDescribed>,
    persons: Result<TheBound, NotDescribed>,
)
    requires
        bound_as(Some(q), WhoDescribedIt::AnAdministrator, theirs),
        bound_as(Some(q), WhoDescribedIt::ThePerson, persons),
    ensures
        theirs is Ok <==> persons is Ok,
        theirs matches Ok(b) ==> b is AnOrganisations,
        persons matches Ok(b) ==> b is ThePersons,
        theirs matches Ok(a) ==> (persons matches Ok(b) && a.rule() == b.rule()),
{
    let x = choose|rule: Result<SourcePolicy, NotDescribed>|
        #[trigger] read_as(q.may_go, q.region, rule) && match rule {
            Err(why) => theirs == Err::<TheBound, NotDescribed>(why),
            Ok(p) => theirs == Ok::<TheBound, NotDescribed>(TheBound::AnOrganisations(p)),
        };
    let y = choose|rule: Result<SourcePolicy, NotDescribed>|
        #[trigger] read_as(q.may_go, q.region, rule) && match rule {
            Err(why) => persons == Err::<TheBound, NotDescribed>(why),
            Ok(p) => persons == Ok::<TheBound, NotDescribed>(TheBound::ThePersons(p)),
        };
    one_reading(q.may_go, q.region, x, y);
}

/// Nothing is read as unrestricted by accident: a section is read as
/// `anywhere` only where `may-go` says exactly that and no region is written.
pub proof fn only_anywhere_is_read_as_anywhere(may_go: String, region: Option<String>)
    requires
        read_as(may_go, region, Ok(SourcePolicy::Anywhere)),
    ensures
        may_go@ == ANYWHERE@,
        region is None,
{
}

/// A section that holds names a place this service reads; every other
/// spelling is refused.
pub proof fn a_rule_is_only_read_from_a_place(
    may_go: String,
    region: Option<String>,
    rule: Result<SourcePolicy, NotDescribed>,
)
    requires
        read_as(may_go, region, rule),
        rule is Ok,
    ensures
        is_a_place(may_go@),
{
}

/// A description with no `[questions]` means the same thing under either
/// shape: both are read.
pub proof fn without_a_policy_both_shapes_are_read(at: Seq<char>)
    ensures
        shape_as(ALSO_READ@[0], false, at, Ok(())),
        shape_as(THE_FORMAT, false, at, Ok(())),
{
}

/// A policy is only ever carried by the newest shape: a description that
/// holds `[questions]` and is read says it is [`THE_FORMAT`].
pub proof fn a_policy_is_read_only_in_the_newest_shape(format: u32, at: Seq<char>)
    requires
        shape_as(format, true, at, Ok(())),
    ensures
        format == THE_FORMAT,
{
}

/// An ordinary machine's description, everything before whatever section a
/// caller adds after it.
pub const AN_ORDINARY_MACHINE: &'static str = "format = 4\n\n[logins]\nperson = 1000\nagent = 989\ngroup = 989\n\n[agent]\nname = \"alo\"\nturn-seconds = 900\nproposal-seconds = 300\n\n[record]\npath = \"/var/lib/alo/record\"\nkeeping = \"forever\"\n";

/// A description of an ordinary machine in the newest shape, with whatever
/// else is written after it.
pub fn a_description_with(after: &str) -> (said: String)
    ensures
        said@ == AN_ORDINARY_MACHINE@ + after@,
{
    let mut said = AN_ORDINARY_MACHINE.to_owned();
    said.append(after);
    said
}

/// The two logins and the group they meet in, as numbers.
#[derive(Debug, Clone, Copy, PartialEq, Eq, Structural)]
pub struct TheLogins {
    /// The signed-in person, who `alo-agentd` runs as.
    pub person: u32,
    /// The agent, which is a login of its own.
    pub agent: u32,
    /// The group that may reach the socket at all.
    pub group: u32,
}

/// The agent this machine has, and how long it is served for.
#[derive(Debug, Clone, PartialEq, Eq)]
pub struct TheAgent {
    /// What the grants call it.
    pub name: String,
    /// How long a turn's own grant lasts, in whole seconds.
    pub turn_seconds: u64,
    /// How long a change waits for an answer, in whole seconds.
    pub proposal_seconds: u64,
}

/// Where what happened is written down, and how long it is kept.
#[derive(Debug, Clone, PartialEq, Eq)]
pub struct TheRecord {
    /// The file the record is appended to.
    pub path: String,
    /// The retention rule this machine is under.
    pub keeping: Keeping,
}

/// A machine description exactly as it was typed: every field required but
/// `[questions]`, and nothing checked yet.
#[derive(Debug, Clone, PartialEq, Eq)]
pub struct AsWritten {
    /// Which shape of description this is.
    pub format: u32,
    /// The two logins.
    pub logins: TheLogins,
    /// The agent, and the two lengths of time.
    pub agent: TheAgent,
    /// Where the record is, and for how long.
    pub record: TheRecord,
    /// Where a question may be answered, absent on a machine nobody bounds.
    pub questions: Option<TheQuestions>,
}

/// What a description whose shape, logins and bound hold is read as: the
/// lengths of time, then the agent's name, then the record's path, and
/// otherwise a machine holding exactly what was written.
pub open spec fn values_as(w: AsWritten, bound: TheBound, made: Result<Described, NotDescribed>) -> bool {
    if w.agent.turn_seconds == 0 {
        made == Err::<Described, NotDescribed>(NotDescribed::NoTimeAtAll { what: THE_TURN })
    } else if w.agent.turn_seconds >= A_WEEK {
        made == Err::<Described, NotDescribed>(NotDescribed::TooLong { what: THE_TURN })
    } else if w.agent.proposal_seconds == 0 {
        made == Err::<Described, NotDescribed>(NotDescribed::NoTimeAtAll { what: THE_PROPOSAL })
    } else if w.agent.proposal_seconds >= A_WEEK {
        made == Err::<Described, NotDescribed>(NotDescribed::TooLong { what: THE_PROPOSAL })
    } else if is_blank(w.agent.name@) {
        made == Err::<Described, NotDescribed>(NotDescribed::Anonymous)
    } else if !is_absolute(w.record.path@) {
        made matches Err(NotDescribed::NotAbsolute { what, at }) && what@ == THE_RECORD@ && at@
            == w.record.path@
    } else {
        made matches Ok(d) && {
            &&& d.spec_sides().spec_person().number() == w.logins.person
            &&& d.spec_sides().spec_agent().number() == w.logins.agent
            &&& d.spec_sides().spec_group().number() == w.logins.group
            &&& d.spec_agent() == w.agent.name@
            &&& d.spec_turn().spec_seconds() == w.agent.turn_seconds
            &&& d.spec_proposal().spec_seconds() == w.agent.proposal_seconds
            &&& d.spec_record() == w.record.path@
            &&& d.spec_keeping() == w.record.keeping
            &&& d.spec_questions() == bound
        }
    }
}

/// What a description read from `at` and written by `who` is read as, in
/// the order somebody reading a log wants: its shape, the three numbers, the
/// two logins as two sides, the bound, and then the values.
pub open spec fn checked_as(
    w: AsWritten,
    at: Seq<char>,
    who: WhoDescribedIt,
    made: Result<Described, NotDescribed>,
) -> bool {
    if !reads(w.format) || (w.format < THE_FORMAT && w.questions is Some) {
        exists|shape: Result<(), NotDescribed>|
            #[trigger] shape_as(w.format, w.questions is Some, at, shape) && (shape matches Err(
                why,
            ) && made == Err::<Described, NotDescribed>(why))
    } else if w.logins.person == NOBODY_AT_ALL || w.logins.agent == NOBODY_AT_ALL {
        made == Err::<Described, NotDescribed>(NotDescribed::NotAUser(NotAUser::NoSuchUser))
    } else if w.logins.group == NOBODY_AT_ALL {
        made == Err::<Described, NotDescribed>(NotDescribed::NotAUser(NotAUser::NoSuchGroup))
    } else if w.logins.person == w.logins.agent {
        made == Err::<Described, NotDescribed>(
            NotDescribed::NotTwoSides(NotTwoSides::OneUser { uid: w.logins.person }),
        )
    } else if w.logins.agent == 0 {
        made == Err::<Described, NotDescribed>(NotDescribed::NotTwoSides(NotTwoSides::AgentAsRoot))
    } else {
        exists|bound: Result<TheBound, NotDescribed>|
            #[trigger] bound_as(w.questions, who, bound) && match bound {
                Err(why) => made == Err::<Described, NotDescribed>(why),
                Ok(b) => values_as(w, b, made),
            }
    }
}

impl AsWritten {
    /// This description, read from `at` and written by `who`, as a machine —
    /// or the first reason it is not one.
    pub fn checked(self, at: &str, who: WhoDescribedIt) -> (made: Result<Described, NotDescribed>)
        ensures
            checked_as(self, at@, who, made),
    {
        let ghost written = self;
        let AsWritten { format, logins, agent, record, questions } = self;
        match shape_checked(format, questions.is_some(), at) {
            Err(why) => return Err(why),
            Ok(()) => {},
        }
        let person = match Uid::of(logins.person) {
            Ok(person) => person,
            Err(why) => return Err(NotDescribed::NotAUser(why)),
        };
        let agent_login = match Uid::of(logins.agent) {
            Ok(agent_login) => agent_login,
            Err(why) => return Err(NotDescribed::NotAUser(why)),
        };
        let group = match Gid::of(logins.group) {
            Ok(group) => group,
            Err(why) => return Err(NotDescribed::NotAUser(why)),
        };
        let sides = match Sides::of(person, agent_login, group) {
            Ok(sides) => sides,
            Err(why) => return Err(NotDescribed::NotTwoSides(why)),
        };
        let bound = bound_of(questions, who);
        let ghost bound_made = bound;
        let bound = match bound {
            Ok(bound) => bound,
            Err(why) => {
                assert(bound_as(written.questions, who, bound_made));
                return Err(why);
            },
        };
        let turn = match Lasting::of_seconds(agent.turn_seconds, THE_TURN) {
            Ok(turn) => turn,
            Err(why) => {
                assert(bound_as(written.questions, who, bound_made));
                return Err(why);
            },
        };
        let proposal = match Lasting::of_seconds(agent.proposal_seconds, THE_PROPOSAL) {
            Ok(proposal) => proposal,
            Err(why) => {
                assert(bound_as(written.questions, who, bound_made));
                return Err(why);
            },
        };
        let made = Described::of(
            sides,
            agent.name.as_str(),
            turn,
            proposal,
            record.path.as_str(),
            record.keeping,
            bound,
        );
        assert(bound_as(written.questions, who, bound_made));
        made
    }
}

/// The format number is answered before anything in the file is used: a
/// description of a shape this service does not read is refused as one,
/// whatever else is wrong with it.
pub proof fn the_format_is_answered_before_the_values(
    w: AsWritten,
    at: Seq<char>,
    who: WhoDescribedIt,
    made: Result<Described, NotDescribed>,
)
    requires
        checked_as(w, at, who, made),
        !reads(w.format),
    ensures
        made matches Err(NotDescribed::AnotherFormat { format, reads, .. }) && format == w.format
            && reads == THE_FORMAT,
{
    let shape = choose|shape: Result<(), NotDescribed>|
        #[trigger] shape_as(w.format, w.questions is Some, at, shape) && (shape matches Err(why)
            && made == Err::<Described, NotDescribed>(why));
}

/// Nothing here has a default: a description is only ever read as a machine
/// when every value in it holds, and then the machine holds exactly what was
/// written.
pub proof fn a_machine_is_exactly_what_was_written(
    w: AsWritten,
    at: Seq<char>,
    who: WhoDescribedIt,
    d: Described,
)
    requires
        checked_as(w, at, who, Ok(d)),
    ensures
        reads(w.format),
        w.logins.person != w.logins.agent,
        w.logins.agent != 0,
        0 < w.agent.turn_seconds < A_WEEK,
        0 < w.agent.proposal_seconds < A_WEEK,
        !is_blank(w.agent.name@),
        is_absolute(w.record.path@),
        d.spec_agent() == w.agent.name@,
        d.spec_record() == w.record.path@,
        d.spec_keeping() == w.record.keeping,
        d.spec_turn().spec_seconds() == w.agent.turn_seconds,
        d.spec_proposal().spec_seconds() == w.agent.proposal_seconds,
{
    if !reads(w.format) || (w.format < THE_FORMAT && w.questions is Some) {
        let shape = choose|shape: Result<(), NotDescribed>|
            #[trigger] shape_as(w.format, w.questions is Some, at, shape) && (shape matches Err(
                why,
            ) && Ok::<Described, NotDescribed>(d) == Err::<Described, NotDescribed>(why));
    }
}

/// A region holds only where `may-go` is `in-a-region`: a section with a
/// region that is read as a rule is read as that region, exactly as written,
/// and beside any other bound a region is refused.
pub proof fn a_region_holds_only_in_a_region(
    may_go: String,
    region: String,
    rule: Result<SourcePolicy, NotDescribed>,
)
    requires
        read_as(may_go, Some(region), rule),
    ensures
        rule is Ok ==> may_go@ == IN_A_REGION@ && !is_blank(region@) && rule
            == Ok::<SourcePolicy, NotDescribed>(SourcePolicy::InRegion(region)),
        is_a_place(may_go@) && may_go@ != IN_A_REGION@ ==> rule == Err::<SourcePolicy, NotDescribed>(
            NotDescribed::ARegionThatBoundsNothing { may_go },
        ),
{
}

/// Each place with no region beside it is read as the rule it names.
pub proof fn each_place_is_read_as_its_rule(may_go: String, rule: Result<SourcePolicy, NotDescribed>)
    requires
        read_as(may_go, None, rule),
    ensures
        may_go@ == ANYWHERE@ ==> rule == Ok::<SourcePolicy, NotDescribed>(SourcePolicy::Anywhere),
        may_go@ == IN_THE_BUILDING@ && may_go@ != ANYWHERE@ ==> rule == Ok::<
            SourcePolicy,
            NotDescribed,
        >(SourcePolicy::InTheBuilding),
        !is_a_place(may_go@) ==> (rule matches Err(NotDescribed::NowhereNamedThat { said, .. })
            && said == may_go),
        rule matches Ok(SourcePolicy::InRegion(_)) ==> false,
{
}

/// Whose bound a machine carries is a fact about who wrote its description:
/// a description whose `[questions]` holds, written by an administrator, gives
/// a machine bounded by the organisation's rule, and the same written by the
/// person gives the person's — and the rule is the section's either way.
pub proof fn the_bound_is_whoever_wrote_the_file(
    w: AsWritten,
    at: Seq<char>,
    who: WhoDescribedIt,
    d: Described,
)
    requires
        checked_as(w, at, who, Ok(d)),
        w.questions is Some,
    ensures
        d.spec_questions() is AnOrganisations <==> who == WhoDescribedIt::AnAdministrator,
        d.spec_questions() is ThePersons <==> who == WhoDescribedIt::ThePerson,
        exists|p: SourcePolicy|
            read_as(w.questions->0.may_go, w.questions->0.region, Ok(p)) && #[trigger]
            d.spec_questions().rule() == Some(p),
{
    if !reads(w.format) || (w.format < THE_FORMAT && w.questions is Some) {
        let shape = choose|shape: Result<(), NotDescribed>|
            #[trigger] shape_as(w.format, w.questions is Some, at, shape) && (shape matches Err(
                why,
            ) && Ok::<Described, NotDescribed>(d) == Err::<Described, NotDescribed>(why));
    } else {
        let bound = choose|bound: Result<TheBound, NotDescribed>|
            #[trigger] bound_as(w.questions, who, bound) && match bound {
                Err(why) => Ok::<Described, NotDescribed>(d) == Err::<Described, NotDescribed>(
                    why,
                ),
                Ok(b) => values_as(w, b, Ok(d)),
            };
        let q = w.questions->0;
        let rule = choose|rule: Result<SourcePolicy, NotDescribed>|
            #[trigger] read_as(q.may_go, q.region, rule) && match rule {
                Err(why) => bound == Err::<TheBound, NotDescribed>(why),
                Ok(p) => match who {
                    WhoDescribedIt::AnAdministrator => bound == Ok::<TheBound, NotDescribed>(
                        TheBound::AnOrganisations(p),
                    ),
                    WhoDescribedIt::ThePerson => bound == Ok::<TheBound, NotDescribed>(
                        TheBound::ThePersons(p),
                    ),
                },
            };
        let p = rule->Ok_0;
        assert(read_as(q.may_go, q.region, Ok(p)));
        assert(d.spec_questions().rule() == Some(p));
    }
}

/// The four places are four different spellings.
proof fn the_places_differ()
    ensures
        ANYWHERE@ != IN_THE_BUILDING@,
        ANYWHERE@ != IN_A_REGION@,
        ANYWHERE@ != THIS_MACHINE_ONLY@,
        IN_THE_BUILDING@ != IN_A_REGION@,
        IN_THE_BUILDING@ != THIS_MACHINE_ONLY@,
        IN_A_REGION@ != THIS_MACHINE_ONLY@,
{
    reveal_strlit("anywhere");
    reveal_strlit("in-the-building");
    reveal_strlit("in-a-region");
    reveal_strlit("this-machine-only");
    assert(ANYWHERE@.len() != IN_THE_BUILDING@.len());
    assert(ANYWHERE@.len() != IN_A_REGION@.len());
    assert(ANYWHERE@.len() != THIS_MACHINE_ONLY@.len());
    assert(IN_THE_BUILDING@.len() != IN_A_REGION@.len());
    assert(IN_THE_BUILDING@.len() != THIS_MACHINE_ONLY@.len());
    assert(IN_A_REGION@.len() != THIS_MACHINE_ONLY@.len());
}

/// With no region beside it, each of the three places that need none is read
/// as the rule it names, and `in-a-region` is refused for naming no region.
pub proof fn a_place_without_a_region_is_its_rule(
    may_go: String,
    rule: Result<SourcePolicy, NotDescribed>,
)
    requires
        read_as(may_go, None, rule),
    ensures
        may_go@ == ANYWHERE@ ==> rule == Ok::<SourcePolicy, NotDescribed>(SourcePolicy::Anywhere),
        may_go@ == IN_THE_BUILDING@ ==> rule == Ok::<SourcePolicy, NotDescribed>(
            SourcePolicy::InTheBuilding,
        ),
        may_go@ == THIS_MACHINE_ONLY@ ==> rule == Ok::<SourcePolicy, NotDescribed>(
            SourcePolicy::ThisMachineOnly,
        ),
        may_go@ == IN_A_REGION@ ==> rule == Err::<SourcePolicy, NotDescribed>(
            NotDescribed::NoRegionNamed,
        ),
{
    the_places_differ();
}

/// `in-a-region` with a region of nothing but spaces names no region, and a
/// region that is not blank is carried exactly as it was written.
pub proof fn a_region_is_read_as_written_or_refused_as_blank(
    may_go: String,
    region: String,
    rule: Result<SourcePolicy, NotDescribed>,
)
    requires
        may_go@ == IN_A_REGION@,
        read_as(may_go, Some(region), rule),
    ensures
        is_blank(region@) ==> rule == Err::<SourcePolicy, NotDescribed>(NotDescribed::NoRegionNamed),
        !is_blank(region@) ==> rule == Ok::<SourcePolicy, NotDescribed>(
            SourcePolicy::InRegion(region),
        ),
{
    the_places_differ();
}

/// A shape this service does not read is refused as one, and the older shape
/// carrying a policy is refused for it, each naming the file and the shape.
pub proof fn a_shape_not_read_is_refused_by_its_number(
    format: u32,
    with_questions: bool,
    at: Seq<char>,
    shape: Result<(), NotDescribed>,
)
    requires
        shape_as(format, with_questions, at, shape),
    ensures
        format != 1 && format != 2 ==> (shape matches Err(
            NotDescribed::AnotherFormat { at: said, format: f, reads: r },
        ) && said@ == at && f == format && r == 2),
        format == 1 && with_questions ==> (shape matches Err(
            NotDescribed::APolicyNeedsANewerShape { at: said, format: f, reads: r },
        ) && said@ == at && f == 1 && r == 2),
        format == 2 || (format == 1 && !with_questions) ==> shape == Ok::<(), NotDescribed>(()),
{
}

/// Whether a description with a shape that is read and no `[questions]` is a
/// machine, the values answered in order: the three numbers, the two logins,
/// the turn, the proposal, the agent's name and the record's path.
pub proof fn the_values_are_refused_in_order(
    w: AsWritten,
    at: Seq<char>,
    who: WhoDescribedIt,
    made: Result<Described, NotDescribed>,
)
    requires
        checked_as(w, at, who, made),
        w.format == 1 || w.format == 2,
        w.questions is None,
    ensures
        w.logins.person == NOBODY_AT_ALL || w.logins.agent == NOBODY_AT_ALL ==> made == Err::<
            Described,
            NotDescribed,
        >(NotDescribed::NotAUser(NotAUser::NoSuchUser)),
        w.logins.person != NOBODY_AT_ALL && w.logins.agent != NOBODY_AT_ALL && w.logins.group
            == NOBODY_AT_ALL ==> made == Err::<Described, NotDescribed>(
            NotDescribed::NotAUser(NotAUser::NoSuchGroup),
        ),
        w.logins.person != NOBODY_AT_ALL && w.logins.agent != NOBODY_AT_ALL && w.logins.group
            != NOBODY_AT_ALL && w.logins.person == w.logins.agent ==> made == Err::<
            Described,
            NotDescribed,
        >(NotDescribed::NotTwoSides(NotTwoSides::OneUser { uid: w.logins.person })),
        w.logins.person != NOBODY_AT_ALL && w.logins.agent != NOBODY_AT_ALL && w.logins.group
            != NOBODY_AT_ALL && w.logins.person != w.logins.agent && w.logins.agent == 0
            ==> made == Err::<Described, NotDescribed>(
            NotDescribed::NotTwoSides(NotTwoSides::AgentAsRoot),
        ),
        w.logins.person != NOBODY_AT_ALL && w.logins.agent != NOBODY_AT_ALL && w.logins.group
            != NOBODY_AT_ALL && w.logins.person != w.logins.agent && w.logins.agent != 0 ==> {
            &&& w.agent.turn_seconds == 0 ==> made == Err::<Described, NotDescribed>(
                NotDescribed::NoTimeAtAll { what: THE_TURN },
            )
            &&& w.agent.turn_seconds >= 604800 ==> made == Err::<Described, NotDescribed>(
                NotDescribed::TooLong { what: THE_TURN },
            )
            &&& 0 < w.agent.turn_seconds < 604800 && w.agent.proposal_seconds == 0 ==> made
                == Err::<Described, NotDescribed>(NotDescribed::NoTimeAtAll { what: THE_PROPOSAL })
            &&& 0 < w.agent.turn_seconds < 604800 && w.agent.proposal_seconds >= 604800 ==> made
                == Err::<Described, NotDescribed>(NotDescribed::TooLong { what: THE_PROPOSAL })
            &&& 0 < w.agent.turn_seconds < 604800 && 0 < w.agent.proposal_seconds < 604800
                && is_blank(w.agent.name@) ==> made == Err::<Described, NotDescribed>(
                NotDescribed::Anonymous,
            )
            &&& 0 < w.agent.turn_seconds < 604800 && 0 < w.agent.proposal_seconds < 604800
                && !is_blank(w.agent.name@) && !is_absolute(w.record.path@) ==> (made matches Err(
                NotDescribed::NotAbsolute { what, at: path },
            ) && what@ == THE_RECORD@ && path@ == w.record.path@)
            &&& made is Ok <==> (0 < w.agent.turn_seconds < 604800 && 0
                < w.agent.proposal_seconds < 604800 && !is_blank(w.agent.name@) && is_absolute(
                w.record.path@,
            ))
            &&& made matches Ok(d) ==> d.spec_questions() == TheBound::Nobodys
        },
{
    if w.logins.person != NOBODY_AT_ALL && w.logins.agent != NOBODY_AT_ALL && w.logins.group
        != NOBODY_AT_ALL && w.logins.person != w.logins.agent && w.logins.agent != 0 {
        let bound = choose|bound: Result<TheBound, NotDescribed>|
            #[trigger] bound_as(w.questions, who, bound) && match bound {
                Err(why) => made == Err::<Described, NotDescribed>(why),
                Ok(b) => values_as(w, b, made),
            };
        assert(bound == Ok::<TheBound, NotDescribed>(TheBound::Nobodys));
    }
}

/// A policy written into the older shape is refused before anything else in
/// the file is used, naming the shape it needs.
pub proof fn a_policy_in_the_older_shape_is_refused_first(
    w: AsWritten,
    at: Seq<char>,
    who: WhoDescribedIt,
    made: Result<Described, NotDescribed>,
)
    requires
        checked_as(w, at, who, made),
        w.format == 1,
        w.questions is Some,
    ensures
        made matches Err(NotDescribed::APolicyNeedsANewerShape { format, reads, .. }) && format
            == 1 && reads == 2,
{
    let shape = choose|shape: Result<(), NotDescribed>|
        #[trigger] shape_as(w.format, w.questions is Some, at, shape) && (shape matches Err(why)
            && made == Err::<Described, NotDescribed>(why));
}

} // verus!
