//! Discovery answered beside the service, as the decisions of the loop that
//! answers it: what one answer does to the count, and what comes after each
//! wait and each answer.
//!
//! The loop waits on three things at once — the service hanging up, a
//! question over IPv4, a question over IPv6 — and answers whichever families
//! were asked, IPv4 first, before it honours a hang-up: a question already
//! waiting is answered before the answering ends. A question that was not for
//! this service is nothing to count; a socket that fails ends the answering,
//! and the reason is kept for the service to stop with.

use vstd::prelude::*;

verus! {

/// The count after one more question was answered, as an atomic counter
/// counts: one more, going round to zero past the last.
pub open spec fn one_more(count: u64) -> u64 {
    if count < u64::MAX {
        (count + 1) as u64
    } else {
        0
    }
}

/// What one answer does: `Ok(true)` a question for this service answered,
/// `Ok(false)` one that was not for it, `Err` a socket that failed. The count
/// comes back, and the reason to stop where there is one.
pub fn after_an_answer(count: u64, answered: Result<bool, String>) -> (next: (u64, Option<String>))
    ensures
        answered matches Ok(true) ==> next == (one_more(count), None::<String>),
        answered matches Ok(false) ==> next == (count, None::<String>),
        answered matches Err(why) ==> next == (count, Some(why)),
{
    match answered {
        Ok(true) => {
            let counted: u64 = if count < u64::MAX {
                count + 1
            } else {
                0
            };
            (counted, None)
        },
        Ok(false) => (count, None),
        Err(why) => (count, Some(why)),
    }
}

/// Where answering discovery stands.
#[derive(Debug, Clone, PartialEq, Eq)]
pub enum Discovering {
    /// Waiting on the hang-up and both families.
    Waiting,
    /// Answering the question over IPv4; then IPv6 if it was asked too, and
    /// then the hang-up if there was one.
    OverIpv4 { then_ipv6: bool, stop: bool },
    /// Answering the question over IPv6; then the hang-up if there was one.
    OverIpv6 { stop: bool },
    /// The service hung up and everything waiting was answered.
    Ended,
    /// A socket failed, for this reason.
    Failed(String),
}

/// What the loop heard.
#[derive(Debug, PartialEq, Eq)]
pub enum Heard {
    /// The wait came back: whether the service hung up, and which families
    /// were asked.
    Ready { stop: bool, over_ipv4: bool, over_ipv6: bool },
    /// The wait itself failed, for this reason.
    NotReady(String),
    /// The answer just asked for: as [`after_an_answer`] reads it.
    Answered(Result<bool, String>),
}

/// Whether `heard` is what the loop at `at` hears: a wait's outcome while
/// waiting, an answer while answering.
pub open spec fn heard_at(at: Discovering, heard: Heard) -> bool {
    match at {
        Discovering::Waiting => !(heard is Answered),
        Discovering::OverIpv4 { .. } => heard is Answered,
        Discovering::OverIpv6 { .. } => heard is Answered,
        _ => true,
    }
}

/// Where the loop goes once a wait came back.
pub open spec fn after_waiting(stop: bool, over_ipv4: bool, over_ipv6: bool) -> Discovering {
    if over_ipv4 {
        Discovering::OverIpv4 { then_ipv6: over_ipv6, stop }
    } else if over_ipv6 {
        Discovering::OverIpv6 { stop }
    } else if stop {
        Discovering::Ended
    } else {
        Discovering::Waiting
    }
}

/// Where the loop goes once an answer that did not fail was given, with a
/// family still to answer or not.
pub open spec fn after_answering(then_ipv6: bool, stop: bool) -> Discovering {
    if then_ipv6 {
        Discovering::OverIpv6 { stop }
    } else if stop {
        Discovering::Ended
    } else {
        Discovering::Waiting
    }
}

/// Where the loop at `at`, having answered `count` questions, goes on hearing
/// `heard`, and the count then.
pub open spec fn step(at: Discovering, count: u64, heard: Heard) -> (Discovering, u64) {
    match (at, heard) {
        (Discovering::Waiting, Heard::Ready { stop, over_ipv4, over_ipv6 }) => (
            after_waiting(stop, over_ipv4, over_ipv6),
            count,
        ),
        (Discovering::Waiting, Heard::NotReady(why)) => (Discovering::Failed(why), count),
        (Discovering::OverIpv4 { then_ipv6, stop }, Heard::Answered(answered)) => match answered {
            Err(why) => (Discovering::Failed(why), count),
            Ok(for_us) => (
                after_answering(then_ipv6, stop),
                if for_us {
                    one_more(count)
                } else {
                    count
                },
            ),
        },
        (Discovering::OverIpv6 { stop }, Heard::Answered(answered)) => match answered {
            Err(why) => (Discovering::Failed(why), count),
            Ok(for_us) => (
                after_answering(false, stop),
                if for_us {
                    one_more(count)
                } else {
                    count
                },
            ),
        },
        (ended, _) => (ended, count),
    }
}

/// Where the loop at `at`, having answered `count` questions, goes on hearing
/// `heard`, and how many it has answered then.
pub fn next(at: Discovering, count: u64, heard: Heard) -> (then: (Discovering, u64))
    requires
        heard_at(at, heard),
    ensures
        then == step(at, count, heard),
{
    match at {
        Discovering::Waiting => match heard {
            Heard::Ready { stop, over_ipv4, over_ipv6 } => {
                if over_ipv4 {
                    (Discovering::OverIpv4 { then_ipv6: over_ipv6, stop }, count)
                } else if over_ipv6 {
                    (Discovering::OverIpv6 { stop }, count)
                } else if stop {
                    (Discovering::Ended, count)
                } else {
                    (Discovering::Waiting, count)
                }
            },
            Heard::NotReady(why) => (Discovering::Failed(why), count),
            Heard::Answered(_) => (Discovering::Waiting, count),
        },
        Discovering::OverIpv4 { then_ipv6, stop } => match heard {
            Heard::Answered(answered) => {
                let (counted, failed) = after_an_answer(count, answered);
                match failed {
                    Some(why) => (Discovering::Failed(why), counted),
                    None => {
                        if then_ipv6 {
                            (Discovering::OverIpv6 { stop }, counted)
                        } else if stop {
                            (Discovering::Ended, counted)
                        } else {
                            (Discovering::Waiting, counted)
                        }
                    },
                }
            },
            _ => (Discovering::OverIpv4 { then_ipv6, stop }, count),
        },
        Discovering::OverIpv6 { stop } => match heard {
            Heard::Answered(answered) => {
                let (counted, failed) = after_an_answer(count, answered);
                match failed {
                    Some(why) => (Discovering::Failed(why), counted),
                    None => {
                        if stop {
                            (Discovering::Ended, counted)
                        } else {
                            (Discovering::Waiting, counted)
                        }
                    },
                }
            },
            _ => (Discovering::OverIpv6 { stop }, count),
        },
        ended => (ended, count),
    }
}

/// Why discovery is no longer answered: the reason kept, or — where the
/// answering ended with none — that it stopped being answered.
pub fn why_it_stopped(kept: Option<String>) -> (why: String)
    ensures
        kept matches Some(reason) ==> why@ == reason@,
        kept is None ==> why@ == "discovery stopped being answered"@,
{
    match kept {
        Some(reason) => reason,
        None => "discovery stopped being answered".to_owned(),
    }
}

/// Both families are answered before a hang-up is honoured: a wait that
/// heard a question in either family goes on to answer it, however the
/// service's hang-up stands.
pub proof fn a_question_waiting_is_answered_before_the_end(
    stop: bool,
    over_ipv4: bool,
    over_ipv6: bool,
)
    ensures
        after_waiting(stop, over_ipv4, over_ipv6) == Discovering::Ended ==> !over_ipv4
            && !over_ipv6 && stop,
        over_ipv4 && over_ipv6 ==> after_answering(over_ipv6, stop) == (Discovering::OverIpv6 {
            stop,
        }),
{
}

/// A failed socket ends the answering and keeps its reason; nothing is
/// answered after it.
pub proof fn a_failure_is_the_end(why: String, count: u64, heard: Heard)
    ensures
        step(Discovering::Failed(why), count, heard) == (Discovering::Failed(why), count),
{
}

/// Only a question for this service is counted, and each one once.
pub proof fn only_questions_for_this_service_are_counted(at: Discovering, count: u64, heard: Heard)
    requires
        heard_at(at, heard),
    ensures
        step(at, count, heard).1 != count ==> heard == Heard::Answered(Ok(true))
            && step(at, count, heard).1 == one_more(count),
{
}

/// The answering goes on until the service hangs up: an answer that did not
/// fail, with no IPv6 question left and no hang-up heard, goes back to
/// waiting for the next question — whether or not it was for this service.
pub proof fn the_answering_goes_on_until_a_hang_up(count: u64, for_us: bool)
    ensures
        step(
            Discovering::OverIpv4 { then_ipv6: false, stop: false },
            count,
            Heard::Answered(Ok(for_us)),
        ).0 == Discovering::Waiting,
        step(Discovering::OverIpv6 { stop: false }, count, Heard::Answered(Ok(for_us))).0
            == Discovering::Waiting,
        step(
            Discovering::Waiting,
            count,
            Heard::Ready { stop: false, over_ipv4: false, over_ipv6: false },
        ).0 == Discovering::Waiting,
{
}

/// The answering ends only on a hang-up: any step that reaches
/// [`Discovering::Ended`] from anywhere else heard the service hang up, in
/// the wait just now or in the one whose questions are being answered.
pub proof fn it_ends_only_when_the_service_hangs_up(at: Discovering, count: u64, heard: Heard)
    requires
        heard_at(at, heard),
        at != Discovering::Ended,
        step(at, count, heard).0 == Discovering::Ended,
    ensures
        match at {
            Discovering::Waiting => heard matches Heard::Ready { stop, over_ipv4, over_ipv6 }
                && stop && !over_ipv4 && !over_ipv6,
            Discovering::OverIpv4 { then_ipv6, stop } => stop && !then_ipv6,
            Discovering::OverIpv6 { stop } => stop,
            _ => false,
        },
{
}

/// Each question for this service is counted once, wherever it was asked,
/// and a question that was not for it is not counted.
pub proof fn each_question_for_this_service_counts_once(
    count: u64,
    for_us: bool,
    then_ipv6: bool,
    stop: bool,
)
    ensures
        step(Discovering::OverIpv4 { then_ipv6, stop }, count, Heard::Answered(Ok(for_us))).1
            == if for_us {
            one_more(count)
        } else {
            count
        },
        step(Discovering::OverIpv6 { stop }, count, Heard::Answered(Ok(for_us))).1 == if for_us {
            one_more(count)
        } else {
            count
        },
        count < u64::MAX ==> one_more(count) == count + 1,
{
}

/// A socket that fails, or a wait that fails, ends the answering with that
/// reason and counts nothing.
pub proof fn a_failure_stops_with_its_reason(
    at: Discovering,
    count: u64,
    why: String,
)
    requires
        at is Waiting || at is OverIpv4 || at is OverIpv6,
    ensures
        at is Waiting ==> step(at, count, Heard::NotReady(why)) == (Discovering::Failed(why), count),
        !(at is Waiting) ==> step(at, count, Heard::Answered(Err(why))) == (
            Discovering::Failed(why),
            count,
        ),
{
}

/// What a wait heard is answered in order: IPv4 first where it was asked,
/// then IPv6, and the hang-up is carried to the end of the round.
pub proof fn a_wait_answers_what_it_heard(stop: bool, over_ipv4: bool, over_ipv6: bool, count: u64)
    ensures
        over_ipv4 ==> step(
            Discovering::Waiting,
            count,
            Heard::Ready { stop, over_ipv4, over_ipv6 },
        ) == (Discovering::OverIpv4 { then_ipv6: over_ipv6, stop }, count),
        !over_ipv4 && over_ipv6 ==> step(
            Discovering::Waiting,
            count,
            Heard::Ready { stop, over_ipv4, over_ipv6 },
        ) == (Discovering::OverIpv6 { stop }, count),
        step(
            Discovering::OverIpv4 { then_ipv6: true, stop },
            count,
            Heard::Answered(Ok(false)),
        ).0 == (Discovering::OverIpv6 { stop }),
{
}

} // verus!
