use alo_agentd::corridor::{called, departure};

const THE_STUDIO: &str = "0123456789abcdef0123456789abcdef";

#[test]
fn a_machine_named_here_is_shown_by_its_name() {
    assert_eq!(
        called(Some("the studio machine".to_owned()), THE_STUDIO),
        "the studio machine"
    );
}

#[test]
fn a_machine_nobody_named_is_shown_by_its_identity() {
    assert_eq!(called(None, THE_STUDIO), THE_STUDIO);
}

#[test]
fn a_machine_named_nothing_but_spaces_is_shown_by_its_identity() {
    assert_eq!(called(Some("   ".to_owned()), THE_STUDIO), THE_STUDIO);
    assert_eq!(called(Some(String::new()), THE_STUDIO), THE_STUDIO);
}

#[test]
fn a_question_down_the_corridor_names_the_machine_by_its_name_and_the_name_never_crosses() {
    let going = departure(THE_STUDIO, Some("the studio machine".to_owned()));
    assert_eq!(going.looked_for, THE_STUDIO);
    assert_eq!(going.asked, THE_STUDIO);
    assert_eq!(going.shown_as, "the studio machine");
    let unnamed = departure(THE_STUDIO, None);
    assert_eq!(unnamed.shown_as, THE_STUDIO);
}
