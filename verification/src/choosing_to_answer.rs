//! The person's door choosing a machine this one is paired with to answer
//! their questions, as the order of what is asked before anything is written.
//!
//! In this order, and every refusal writes nothing: an identity, before the
//! settings file is opened, so a hostname typed into a shell never reaches the
//! disk; somewhere to keep the choice; the settings file as it stands, left
//! alone when it does not hold; and the pairing, asked under the lock while
//! the choice is written.

use vstd::prelude::*;

verus! {

/// Why nothing was chosen.
#[derive(Debug, Clone, Copy, PartialEq, Eq, Structural)]
pub enum NotChosen {
    /// What was named is not a machine's identity.
    NotAMachine,
    /// The session has nowhere to keep settings.
    NowhereToKeepIt,
    /// The settings file there does not hold, and is left as it is.
    TheFileDoesNotHold,
    /// The choice was not written: no pairing lets that machine answer, or the
    /// file could not be written.
    NotWritten,
}

/// Where choosing a machine to answer stands.
#[derive(Debug, Clone, Copy, PartialEq, Eq, Structural)]
pub enum Choosing {
    /// Read what was named as a machine's identity.
    ReadTheIdentity,
    /// Find where this session keeps its settings.
    FindTheSettings,
    /// Open the settings file as it stands.
    OpenTheFile,
    /// Ask the pairing, under the lock, and write the choice.
    AskThePairing,
    /// The machine was chosen and the choice written.
    Chosen,
    /// Nothing was chosen, for this reason.
    Refused(NotChosen),
}

/// Where choosing stands once the step `at` went (`went`) or did not.
pub open spec fn after(at: Choosing, went: bool) -> Choosing {
    match at {
        Choosing::ReadTheIdentity => if went {
            Choosing::FindTheSettings
        } else {
            Choosing::Refused(NotChosen::NotAMachine)
        },
        Choosing::FindTheSettings => if went {
            Choosing::OpenTheFile
        } else {
            Choosing::Refused(NotChosen::NowhereToKeepIt)
        },
        Choosing::OpenTheFile => if went {
            Choosing::AskThePairing
        } else {
            Choosing::Refused(NotChosen::TheFileDoesNotHold)
        },
        Choosing::AskThePairing => if went {
            Choosing::Chosen
        } else {
            Choosing::Refused(NotChosen::NotWritten)
        },
        ended => ended,
    }
}

/// The step after `at`, given whether `at` went.
pub fn next(at: Choosing, went: bool) -> (then: Choosing)
    ensures
        then == after(at, went),
{
    match at {
        Choosing::ReadTheIdentity => if went {
            Choosing::FindTheSettings
        } else {
            Choosing::Refused(NotChosen::NotAMachine)
        },
        Choosing::FindTheSettings => if went {
            Choosing::OpenTheFile
        } else {
            Choosing::Refused(NotChosen::NowhereToKeepIt)
        },
        Choosing::OpenTheFile => if went {
            Choosing::AskThePairing
        } else {
            Choosing::Refused(NotChosen::TheFileDoesNotHold)
        },
        Choosing::AskThePairing => if went {
            Choosing::Chosen
        } else {
            Choosing::Refused(NotChosen::NotWritten)
        },
        ended => ended,
    }
}

/// Where choosing stands after the steps that went as `went` says, from the
/// first.
pub open spec fn walked(went: Seq<bool>) -> Choosing
    decreases went.len(),
{
    if went.len() == 0 {
        Choosing::ReadTheIdentity
    } else {
        after(walked(went.drop_last()), went.last())
    }
}

/// How far along the order a step is.
pub open spec fn rank(at: Choosing) -> int {
    match at {
        Choosing::ReadTheIdentity => 0,
        Choosing::FindTheSettings => 1,
        Choosing::OpenTheFile => 2,
        Choosing::AskThePairing => 3,
        Choosing::Chosen => 4,
        Choosing::Refused(_) => -1,
    }
}

/// A walk that has not been refused has gone exactly as far as its steps,
/// every one of which went.
proof fn a_walk_not_refused_went_every_step(went: Seq<bool>)
    requires
        !(walked(went) is Refused),
    ensures
        rank(walked(went)) == if went.len() <= 4 {
            went.len() as int
        } else {
            4
        },
        forall|i: int| 0 <= i < went.len() && i < 4 ==> #[trigger] went[i],
    decreases went.len(),
{
    if went.len() > 0 {
        let before = went.drop_last();
        if walked(before) is Refused {
            assert(walked(went) == walked(before));
        } else {
            a_walk_not_refused_went_every_step(before);
            assert forall|i: int| 0 <= i < went.len() && i < 4 implies #[trigger] went[i] by {
                if i < went.len() - 1 {
                    assert(went[i] == before[i]);
                }
            }
        }
    }
}

/// The identity is answered before any file is opened: the settings file is
/// only opened once what was named read as a machine and there is somewhere
/// to keep it.
pub proof fn the_identity_is_answered_before_any_file(went: Seq<bool>)
    requires
        walked(went) == Choosing::OpenTheFile,
    ensures
        went.len() == 2,
        went[0] && went[1],
{
    a_walk_not_refused_went_every_step(went);
}

/// A machine is chosen only when every step went, the pairing last.
pub proof fn chosen_only_when_every_step_went(went: Seq<bool>)
    requires
        walked(went) == Choosing::Chosen,
    ensures
        went.len() >= 4,
        went[0] && went[1] && went[2] && went[3],
{
    a_walk_not_refused_went_every_step(went);
}

/// A refusal is where choosing ends: nothing is asked or written after it.
pub proof fn a_refusal_is_the_end(why: NotChosen, went: bool)
    ensures
        after(Choosing::Refused(why), went) == Choosing::Refused(why),
{
}

/// A machine chosen to answer: what the settings keep, and what the person is
/// told.
#[derive(Debug, Clone, PartialEq, Eq)]
pub struct ChosenToAnswer {
    /// What the settings keep under `machine`: the identity, never a name.
    pub kept: String,
    /// The machine the person is told was chosen, by its identity.
    pub machine: String,
    /// The name the person here gave it, told beside the identity.
    pub called: Option<String>,
}

/// What choosing the machine with this identity keeps and says, where the
/// person here called it `called`: the settings hold the identity, and the
/// name is only ever told beside it.
pub fn chosen(identity: &str, called: Option<String>) -> (choice: ChosenToAnswer)
    ensures
        choice.kept@ == identity@,
        choice.machine@ == identity@,
        choice.called == called,
{
    ChosenToAnswer { kept: identity.to_owned(), machine: identity.to_owned(), called }
}

/// Each step that does not go ends the choosing with its own reason.
pub proof fn each_step_refuses_in_its_own_words()
    ensures
        after(Choosing::ReadTheIdentity, false) == Choosing::Refused(NotChosen::NotAMachine),
        after(Choosing::FindTheSettings, false) == Choosing::Refused(NotChosen::NowhereToKeepIt),
        after(Choosing::OpenTheFile, false) == Choosing::Refused(NotChosen::TheFileDoesNotHold),
        after(Choosing::AskThePairing, false) == Choosing::Refused(NotChosen::NotWritten),
        after(Choosing::Chosen, false) == Choosing::Chosen,
{
}

/// When every step goes, the machine is chosen after exactly four.
pub proof fn every_step_going_is_a_choice()
    ensures
        walked(seq![true, true, true, true]) == Choosing::Chosen,
{
    let s0 = Seq::<bool>::empty();
    let s1 = s0.push(true);
    let s2 = s1.push(true);
    let s3 = s2.push(true);
    let s4 = s3.push(true);
    assert(walked(s0) == Choosing::ReadTheIdentity);
    assert(s1.drop_last() == s0 && s1.last());
    assert(s2.drop_last() == s1 && s2.last());
    assert(s3.drop_last() == s2 && s3.last());
    assert(s4.drop_last() == s3 && s4.last());
    assert(walked(s1) == Choosing::FindTheSettings);
    assert(walked(s2) == Choosing::OpenTheFile);
    assert(walked(s3) == Choosing::AskThePairing);
    assert(walked(s4) == Choosing::Chosen);
    assert(s4 =~= seq![true, true, true, true]);
}

} // verus!
