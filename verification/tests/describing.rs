use alo_agentd::ageing::Keeping;
use alo_agentd::describing::{AsWritten, TheAgent, TheLogins, TheRecord};
use alo_agentd::refusing::{NotAUser, NotTwoSides};
use alo_agentd::describing::{
    a_description_with, bound_of, is_a_shape_we_read, shape_checked, SourcePolicy, TheBound,
    TheQuestions, WhoDescribedIt, ALSO_READ, ANYWHERE, AN_ORDINARY_MACHINE, EVERY_PLACE,
    IN_A_REGION, IN_THE_BUILDING, THE_DESCRIPTION, THE_FORMAT, THE_MAY_GO, THE_NAME,
    THE_PROPOSAL, THE_RECORD, THE_REGION, THE_TURN, THIS_MACHINE_ONLY,
};
use alo_agentd::refusing::NotDescribed;

fn bounded_by(may_go: &str, region: Option<&str>) -> TheQuestions {
    TheQuestions {
        may_go: may_go.to_owned(),
        region: region.map(str::to_owned),
    }
}

#[test]
fn the_keys_are_named_once() {
    assert_eq!(THE_RECORD, "record.path");
    assert_eq!(THE_NAME, "agent.name");
    assert_eq!(THE_DESCRIPTION, "/etc/alo/agentd.toml");
}

#[test]
fn the_bounds_keys_are_named_once() {
    assert_eq!(THE_MAY_GO, "questions.may-go");
    assert_eq!(THE_REGION, "questions.region");
    assert_eq!(
        EVERY_PLACE,
        [
            "anywhere",
            "in-the-building",
            "in-a-region",
            "this-machine-only"
        ]
    );
}

#[test]
fn the_lengths_of_time_are_named_by_their_keys() {
    assert_eq!(THE_TURN, "agent.turn-seconds");
    assert_eq!(THE_PROPOSAL, "agent.proposal-seconds");
}

#[test]
fn the_two_shapes_this_alo_os_reads_and_no_others() {
    assert_eq!(THE_FORMAT, 2);
    assert_eq!(ALSO_READ, [1]);
    assert!(is_a_shape_we_read(1));
    assert!(is_a_shape_we_read(2));
    assert!(!is_a_shape_we_read(0));
    assert!(!is_a_shape_we_read(3));
    assert!(!is_a_shape_we_read(7));
    assert!(!is_a_shape_we_read(u32::MAX));
}

#[test]
fn a_description_from_a_newer_alo_os_is_refused_and_names_the_file() {
    let refused = shape_checked(7, false, "/etc/alo/agentd.toml").unwrap_err();
    assert_eq!(
        refused,
        NotDescribed::AnotherFormat {
            at: "/etc/alo/agentd.toml".to_owned(),
            format: 7,
            reads: 2
        }
    );
    // Even with a policy in it, the shape is what is answered first.
    assert!(matches!(
        shape_checked(7, true, "/etc/alo/agentd.toml"),
        Err(NotDescribed::AnotherFormat { format: 7, .. })
    ));
}

#[test]
fn a_policy_in_the_shape_that_could_not_carry_one_is_refused() {
    assert_eq!(
        shape_checked(1, true, "/etc/alo/agentd.toml"),
        Err(NotDescribed::APolicyNeedsANewerShape {
            at: "/etc/alo/agentd.toml".to_owned(),
            format: 1,
            reads: 2
        })
    );
}

#[test]
fn the_shape_before_this_one_is_still_read_and_so_is_this_one() {
    assert_eq!(shape_checked(1, false, "/etc/alo/agentd.toml"), Ok(()));
    assert_eq!(shape_checked(2, false, "/etc/alo/agentd.toml"), Ok(()));
    assert_eq!(shape_checked(2, true, "/etc/alo/agentd.toml"), Ok(()));
}

#[test]
fn a_machine_with_no_questions_section_is_unmanaged() {
    for who in [WhoDescribedIt::AnAdministrator, WhoDescribedIt::ThePerson] {
        let bound = bound_of(None, who).unwrap();
        assert_eq!(bound, TheBound::Nobodys);
        assert!(!bound.by_an_organisation());
        assert_eq!(bound.policy(), None);
    }
}

#[test]
fn a_bound_an_administrator_wrote_is_an_organisations() {
    let bound = bound_of(
        Some(bounded_by("this-machine-only", None)),
        WhoDescribedIt::AnAdministrator,
    )
    .unwrap();
    assert_eq!(bound, TheBound::AnOrganisations(SourcePolicy::ThisMachineOnly));
    assert!(bound.by_an_organisation());
}

#[test]
fn the_same_bound_the_person_wrote_names_no_administrator() {
    let theirs = bound_of(
        Some(bounded_by("this-machine-only", None)),
        WhoDescribedIt::ThePerson,
    )
    .unwrap();
    assert_eq!(theirs, TheBound::ThePersons(SourcePolicy::ThisMachineOnly));
    assert!(!theirs.by_an_organisation());
    let organisations = bound_of(
        Some(bounded_by("this-machine-only", None)),
        WhoDescribedIt::AnAdministrator,
    )
    .unwrap();
    assert_eq!(theirs.policy(), organisations.policy());
}

#[test]
fn every_place_an_organisation_may_name_is_read() {
    for (written, rule) in [
        (ANYWHERE, SourcePolicy::Anywhere),
        (IN_THE_BUILDING, SourcePolicy::InTheBuilding),
        (THIS_MACHINE_ONLY, SourcePolicy::ThisMachineOnly),
    ] {
        assert_eq!(bounded_by(written, None).checked(), Ok(rule), "{written}");
    }
}

#[test]
fn a_region_is_carried_exactly_as_it_was_named() {
    assert_eq!(
        bounded_by(IN_A_REGION, Some("the EU")).checked(),
        Ok(SourcePolicy::InRegion("the EU".to_owned()))
    );
    assert_eq!(
        bounded_by(IN_A_REGION, Some("  the EU ")).checked(),
        Ok(SourcePolicy::InRegion("  the EU ".to_owned()))
    );
}

#[test]
fn a_bound_this_alo_os_cannot_read_is_refused_rather_than_ignored() {
    let refused = bounded_by("in-the-buiding", None).checked().unwrap_err();
    assert_eq!(
        refused,
        NotDescribed::NowhereNamedThat {
            said: "in-the-buiding".to_owned(),
            every: "anywhere, in-the-building, in-a-region, this-machine-only".to_owned(),
        }
    );
}

#[test]
fn a_bound_by_region_with_no_region_is_refused() {
    assert_eq!(
        bounded_by(IN_A_REGION, None).checked(),
        Err(NotDescribed::NoRegionNamed)
    );
}

#[test]
fn a_region_of_nothing_but_spaces_is_no_region() {
    assert_eq!(
        bounded_by(IN_A_REGION, Some("   ")).checked(),
        Err(NotDescribed::NoRegionNamed)
    );
    assert_eq!(
        bounded_by(IN_A_REGION, Some("")).checked(),
        Err(NotDescribed::NoRegionNamed)
    );
    assert_eq!(
        bounded_by(IN_A_REGION, Some("\t\n\u{a0}\u{3000}")).checked(),
        Err(NotDescribed::NoRegionNamed)
    );
}

#[test]
fn a_region_beside_a_bound_that_ignores_it_is_refused() {
    assert_eq!(
        bounded_by(IN_THE_BUILDING, Some("the EU")).checked(),
        Err(NotDescribed::ARegionThatBoundsNothing {
            may_go: "in-the-building".to_owned()
        })
    );
    assert!(matches!(
        bounded_by(ANYWHERE, Some("   ")).checked(),
        Err(NotDescribed::ARegionThatBoundsNothing { .. })
    ));
}

#[test]
fn an_unknown_bound_is_answered_before_the_region_written_beside_it() {
    assert!(matches!(
        bounded_by("in-a-regoin", Some("the EU")).checked(),
        Err(NotDescribed::NowhereNamedThat { .. })
    ));
}

#[test]
fn a_refusal_reaches_the_bound_whoever_wrote_it() {
    assert_eq!(
        bound_of(Some(bounded_by(IN_A_REGION, None)), WhoDescribedIt::ThePerson),
        Err(NotDescribed::NoRegionNamed)
    );
}

#[test]
fn a_spelling_is_matched_exactly() {
    assert!(bounded_by("Anywhere", None).checked().is_err());
    assert!(bounded_by(" anywhere", None).checked().is_err());
    assert!(bounded_by("", None).checked().is_err());
}

#[test]
fn a_description_is_the_ordinary_machine_with_what_follows_it() {
    let said = a_description_with("\n[proxy]\ngoes-through = \"nothing\"\n");
    assert!(said.starts_with("format = 4\n\n[logins]\nperson = 1000\n"));
    assert!(said.ends_with("keeping = \"forever\"\n\n[proxy]\ngoes-through = \"nothing\"\n"));
    assert_eq!(a_description_with(""), AN_ORDINARY_MACHINE);
}



/// An ordinary machine, in the shape before `[questions]`.
fn an_ordinary_machine() -> AsWritten {
    AsWritten {
        format: 1,
        logins: TheLogins {
            person: 1000,
            agent: 989,
            group: 989,
        },
        agent: TheAgent {
            name: "alo".to_owned(),
            turn_seconds: 900,
            proposal_seconds: 300,
        },
        record: TheRecord {
            path: "/var/lib/alo/record".to_owned(),
            keeping: Keeping::Forever,
        },
        questions: None,
    }
}

fn an_administrator_wrote(written: AsWritten) -> Result<alo_agentd::described::Described, NotDescribed> {
    written.checked("/etc/alo/agentd.toml", WhoDescribedIt::AnAdministrator)
}

#[test]
fn the_description_in_the_contract_is_a_machine() {
    let machine = an_administrator_wrote(an_ordinary_machine()).unwrap();
    assert_eq!(machine.sides().person().raw(), 1000);
    assert_eq!(machine.sides().agent().raw(), 989);
    assert_eq!(machine.sides().group().raw(), 989);
    assert_eq!(machine.agent(), "alo");
    assert_eq!(machine.turn().seconds(), 900);
    assert_eq!(machine.proposal().seconds(), 300);
    assert_eq!(machine.record(), "/var/lib/alo/record");
    assert_eq!(machine.keeping(), Keeping::Forever);
}

#[test]
fn a_retention_in_days_is_read_as_the_rule_it_is() {
    let mut written = an_ordinary_machine();
    written.record.keeping = Keeping::for_days(90).unwrap();
    assert_eq!(
        an_administrator_wrote(written).unwrap().keeping().days(),
        Some(90)
    );
}

#[test]
fn a_machine_with_one_login_is_refused() {
    let mut written = an_ordinary_machine();
    written.logins.agent = 1000;
    assert!(matches!(
        an_administrator_wrote(written).unwrap_err(),
        NotDescribed::NotTwoSides(NotTwoSides::OneUser { uid: 1000 })
    ));
}

#[test]
fn an_agent_named_as_root_is_refused() {
    let mut written = an_ordinary_machine();
    written.logins.agent = 0;
    assert!(matches!(
        an_administrator_wrote(written).unwrap_err(),
        NotDescribed::NotTwoSides(NotTwoSides::AgentAsRoot)
    ));
}

#[test]
fn a_number_that_is_not_a_user_is_refused() {
    let mut written = an_ordinary_machine();
    written.logins.agent = 4294967295;
    assert!(matches!(
        an_administrator_wrote(written).unwrap_err(),
        NotDescribed::NotAUser(NotAUser::NoSuchUser)
    ));
    let mut written = an_ordinary_machine();
    written.logins.group = 4294967295;
    assert!(matches!(
        an_administrator_wrote(written).unwrap_err(),
        NotDescribed::NotAUser(NotAUser::NoSuchGroup)
    ));
}

#[test]
fn a_turn_that_lasts_no_time_is_refused_by_its_key() {
    let mut written = an_ordinary_machine();
    written.agent.turn_seconds = 0;
    let refused = an_administrator_wrote(written).unwrap_err();
    assert!(matches!(refused, NotDescribed::NoTimeAtAll { what } if what == THE_TURN));
}

#[test]
fn a_proposal_that_stands_no_time_is_refused_by_its_own_key() {
    let mut written = an_ordinary_machine();
    written.agent.proposal_seconds = 0;
    let refused = an_administrator_wrote(written).unwrap_err();
    assert!(matches!(refused, NotDescribed::NoTimeAtAll { what } if what == THE_PROPOSAL));
}

#[test]
fn a_relative_record_path_is_refused() {
    let mut written = an_ordinary_machine();
    written.record.path = "record".to_owned();
    assert!(matches!(
        an_administrator_wrote(written).unwrap_err(),
        NotDescribed::NotAbsolute { what, .. } if what == THE_RECORD
    ));
}

#[test]
fn the_format_is_answered_before_the_values() {
    let mut written = an_ordinary_machine();
    written.format = 7;
    written.logins.agent = 1000;
    assert!(matches!(
        an_administrator_wrote(written).unwrap_err(),
        NotDescribed::AnotherFormat { format: 7, .. }
    ));
}

#[test]
fn the_newer_shape_without_a_policy_is_unmanaged_too() {
    let mut written = an_ordinary_machine();
    written.format = 2;
    assert_eq!(
        an_administrator_wrote(written).unwrap().questions(),
        &TheBound::Nobodys
    );
}

#[test]
fn a_bound_the_person_wrote_reaches_the_machine_as_theirs() {
    let mut written = an_ordinary_machine();
    written.format = 2;
    written.questions = Some(bounded_by("this-machine-only", None));
    let theirs = written
        .checked("/etc/alo/agentd.toml", WhoDescribedIt::ThePerson)
        .unwrap();
    assert_eq!(
        theirs.questions(),
        &TheBound::ThePersons(SourcePolicy::ThisMachineOnly)
    );
}

#[test]
fn a_whole_description_with_a_policy_in_the_older_shape_is_refused() {
    let mut written = an_ordinary_machine();
    written.questions = Some(bounded_by("this-machine-only", None));
    assert!(matches!(
        an_administrator_wrote(written).unwrap_err(),
        NotDescribed::APolicyNeedsANewerShape {
            format: 1,
            reads: 2,
            ..
        }
    ));
}

#[test]
fn the_logins_are_answered_before_the_bound_and_the_bound_before_the_values() {
    let mut written = an_ordinary_machine();
    written.format = 2;
    written.logins.agent = 1000;
    written.questions = Some(bounded_by("nowhere", None));
    assert!(matches!(
        an_administrator_wrote(written).unwrap_err(),
        NotDescribed::NotTwoSides(_)
    ));
    let mut written = an_ordinary_machine();
    written.format = 2;
    written.agent.turn_seconds = 0;
    written.questions = Some(bounded_by("nowhere", None));
    assert!(matches!(
        an_administrator_wrote(written).unwrap_err(),
        NotDescribed::NowhereNamedThat { .. }
    ));
}

#[test]
fn a_proposal_that_stands_for_a_week_is_refused() {
    let mut written = an_ordinary_machine();
    written.agent.proposal_seconds = 604800;
    assert!(matches!(
        an_administrator_wrote(written).unwrap_err(),
        NotDescribed::TooLong { .. }
    ));
}

#[test]
fn a_turn_of_a_week_is_refused_by_its_key_and_a_day_is_not() {
    let mut written = an_ordinary_machine();
    written.agent.turn_seconds = 604800;
    let refused = an_administrator_wrote(written).unwrap_err();
    assert!(matches!(refused, NotDescribed::TooLong { what } if what == THE_TURN));
    assert!(refused.said().contains("agent.turn-seconds"), "{}", refused.said());
    let mut written = an_ordinary_machine();
    written.agent.proposal_seconds = 604799;
    assert_eq!(
        an_administrator_wrote(written).unwrap().proposal().seconds(),
        604799
    );
}

#[test]
fn a_refusal_names_the_file_and_the_key_in_words() {
    let refused = shape_checked(7, false, "/etc/alo/agentd.toml").unwrap_err();
    assert_eq!(
        refused.said(),
        "/etc/alo/agentd.toml is a description of format 7, and this alo OS reads format 2 and older"
    );
    let refused = bounded_by("in-the-buiding", None).checked().unwrap_err();
    assert!(refused.said().contains("in-the-buiding"), "{}", refused.said());
    assert!(refused.said().contains(IN_THE_BUILDING), "{}", refused.said());
    let refused = bounded_by(IN_THE_BUILDING, Some("the EU")).checked().unwrap_err();
    assert!(refused.said().contains(IN_THE_BUILDING), "{}", refused.said());
    let refused = shape_checked(1, true, "/etc/alo/agentd.toml").unwrap_err();
    assert!(refused.said().contains("questions"), "{}", refused.said());
    let mut written = an_ordinary_machine();
    written.record.path = "record".to_owned();
    let refused = an_administrator_wrote(written).unwrap_err();
    assert!(refused.said().contains("record.path"), "{}", refused.said());
    let mut written = an_ordinary_machine();
    written.logins.agent = 1000;
    assert_eq!(
        an_administrator_wrote(written).unwrap_err().said(),
        "the person and the agent are one login, 1000"
    );
}
