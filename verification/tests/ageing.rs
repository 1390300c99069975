use alo_agentd::ageing::{Ageing, EVERY, Keeping};

const SECOND: u64 = 1_000_000_000;

/// A fixed moment, so that being due is arithmetic rather than a wait.
fn noon() -> u64 {
    1_760_000_000 * SECOND
}

/// Ninety days, as an organisation would set it.
fn ninety_days() -> Keeping {
    Keeping::for_days(90).unwrap()
}

#[test]
fn a_machine_that_keeps_everything_has_nothing_to_wake_up_for() {
    let ageing = Ageing::under(Keeping::Forever);
    assert_eq!(ageing.before(noon()), None);
    assert!(!ageing.due(noon()));
}

#[test]
fn the_first_shortening_under_a_rule_is_due_immediately() {
    let ageing = Ageing::under(ninety_days());
    assert!(ageing.due(noon()));
    assert_eq!(ageing.before(noon()), Some(0));
}

#[test]
fn the_next_one_is_an_interval_after_the_last() {
    let mut ageing = Ageing::under(ninety_days());
    ageing.ran(noon());

    assert!(!ageing.due(noon()));
    assert_eq!(ageing.before(noon()), Some(EVERY));
    assert_eq!(
        ageing.before(noon() + 600 * SECOND),
        Some(EVERY - 600 * SECOND)
    );
    assert!(ageing.due(noon() + EVERY));
    assert!(ageing.due(noon() + EVERY + SECOND));
}

#[test]
fn a_clock_put_back_costs_a_wake_up_and_not_the_rule() {
    let mut ageing = Ageing::under(ninety_days());
    ageing.ran(noon());

    let a_year_earlier = noon() - 365 * 24 * 60 * 60 * SECOND;
    assert_eq!(ageing.before(a_year_earlier), Some(EVERY));
}

#[test]
fn a_record_that_is_not_on_a_disk_stops_the_waking_up() {
    let mut ageing = Ageing::under(ninety_days());
    assert!(ageing.due(noon()));

    ageing.ran(noon());
    ageing.nothing_to_shorten();

    assert_eq!(ageing.before(noon() + EVERY * 24), None);
    assert!(!ageing.due(noon() + EVERY * 24));
}

#[test]
fn the_rule_is_carried_and_not_changed() {
    assert_eq!(Ageing::under(ninety_days()).keeping(), ninety_days());
    assert_eq!(Ageing::under(Keeping::Forever).keeping(), Keeping::Forever);
}

#[test]
fn the_interval_is_finer_than_the_smallest_rule_there_is() {
    let a_day = 24 * 60 * 60 * SECOND;
    assert!(EVERY < a_day);
    assert_eq!(Keeping::for_days(1).unwrap().days(), Some(1));
    assert!(Keeping::for_days(0).is_err(), "a finer rule than one day");
}

#[test]
fn an_hour_is_an_hour_in_nanoseconds_and_forever_counts_no_days() {
    assert_eq!(EVERY, 60 * 60 * SECOND);
    assert_eq!(Keeping::Forever.days(), None);
    assert_eq!(Keeping::for_days(90), Ok(Keeping::ForDays(90)));
}

#[test]
fn a_shortening_near_the_last_moment_is_waited_from_like_any_other() {
    let mut ageing = Ageing::under(ninety_days());
    ageing.ran(u64::MAX - 600 * SECOND);
    assert_eq!(ageing.before(0), Some(EVERY));
    assert_eq!(ageing.before(u64::MAX), Some(EVERY - 600 * SECOND));
    assert_eq!(ageing.before(u64::MAX - 600 * SECOND), Some(EVERY));
}

#[test]
fn half_an_interval_later_half_of_it_is_left() {
    let mut ageing = Ageing::under(ninety_days());
    ageing.ran(noon());
    assert_eq!(ageing.before(noon() + EVERY / 2), Some(EVERY / 2));
    assert_eq!(ageing.before(noon() + EVERY - 1), Some(1));
    assert!(!ageing.due(noon() + EVERY - 1));
}
