use alo_agentd::answering::{
    answered_to, under, what_a_person_said, what_is_granted_changed, AfterRereading, FromAPerson,
    Reply,
};

#[test]
fn a_machine_with_no_turn_says_nothing_is_waiting() {
    assert_eq!(answered_to(FromAPerson::Waiting, None), Reply::Waiting(Vec::new()));
    // And a turn with nothing outstanding says the same.
    assert_eq!(
        answered_to(FromAPerson::Waiting, Some(&Vec::new())),
        Reply::Waiting(Vec::new())
    );
}

#[test]
fn answering_with_no_turn_under_way_is_refused_in_the_ordinary_words() {
    assert_eq!(
        answered_to(FromAPerson::Approve { number: 7 }, None),
        Reply::NothingIsWaiting { number: 7 }
    );
    assert_eq!(
        answered_to(FromAPerson::Decline { number: 7 }, None),
        Reply::NothingIsWaiting { number: 7 }
    );
    assert_eq!(
        answered_to(FromAPerson::Approve { number: 7 }, Some(&vec![3, 4])),
        Reply::NothingIsWaiting { number: 7 }
    );
}

#[test]
fn a_change_waiting_is_answered_under_its_own_number() {
    let waiting = vec![3, 5, 8];
    assert_eq!(
        answered_to(FromAPerson::Approve { number: 5 }, Some(&waiting)),
        Reply::Approving(5)
    );
    assert_eq!(
        answered_to(FromAPerson::Decline { number: 8 }, Some(&waiting)),
        Reply::Declining(8)
    );
    assert_eq!(
        answered_to(FromAPerson::Waiting, Some(&waiting)),
        Reply::Waiting(vec![3, 5, 8])
    );
}

#[test]
fn what_is_granted_reaching_a_turn_is_the_sentence_of_a_list_not_read_again() {
    assert_eq!(
        answered_to(FromAPerson::Granted, Some(&vec![1])),
        Reply::NotReadAgain
    );
    assert_eq!(answered_to(FromAPerson::Granted, None), Reply::Waiting(Vec::new()));
}

#[test]
fn a_number_is_found_among_what_is_waiting() {
    assert_eq!(under(&vec![1, 2, 3], 2), Some(2));
    assert_eq!(under(&vec![1, 2, 3], 4), None);
    assert_eq!(under(&Vec::new(), 0), None);
    assert_eq!(FromAPerson::Approve { number: 9 }.number(), Some(9));
    assert_eq!(FromAPerson::Waiting.number(), None);
}

#[test]
fn a_person_asking_for_something_that_is_not_a_request_is_refused_before_the_turn() {
    assert_eq!(
        what_a_person_said(Err("not a request".to_owned()), Some(&vec![1])),
        Reply::NotARequest("not a request".to_owned())
    );
    assert_eq!(
        what_a_person_said(Ok(FromAPerson::Granted), None),
        Reply::ReadAgain
    );
    assert_eq!(
        what_a_person_said(Ok(FromAPerson::Granted), Some(&vec![1])),
        Reply::ReadAgain
    );
    assert_eq!(
        what_a_person_said(Ok(FromAPerson::Approve { number: 1 }), Some(&vec![1])),
        Reply::Approving(1)
    );
}

#[test]
fn grants_read_again_are_counted_and_a_failure_is_written_down() {
    assert_eq!(
        what_is_granted_changed(Ok(3)),
        AfterRereading {
            reply: Reply::Granted(3),
            written_down: false,
            for_the_log: None
        }
    );
    assert_eq!(
        what_is_granted_changed(Err("the file does not parse".to_owned())),
        AfterRereading {
            reply: Reply::NotReadAgain,
            written_down: true,
            for_the_log: Some("the file does not parse".to_owned())
        }
    );
}
