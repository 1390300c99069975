use alo_agentd::bounding::next_name;

#[test]
fn every_turn_is_named_once_and_after_this_services_own_count() {
    let mut named = 0;
    assert_eq!(next_name(&mut named), "turn-1");
    assert_eq!(next_name(&mut named), "turn-2");

    let mut most = u64::MAX - 1;
    assert_eq!(next_name(&mut most), format!("turn-{}", u64::MAX));
    assert_eq!(next_name(&mut most), format!("turn-{}", u64::MAX));
}

#[test]
fn names_are_written_in_decimal_with_every_digit() {
    let mut named = 9;
    assert_eq!(next_name(&mut named), "turn-10");
    assert_eq!(named, 10);
    let mut named = 1_234_567_889;
    assert_eq!(next_name(&mut named), "turn-1234567890");
    let mut named = 99;
    assert_eq!(next_name(&mut named), "turn-100");
}

#[test]
fn successive_names_are_never_the_same() {
    let mut named = 0;
    let mut seen = Vec::new();
    for _ in 0..200 {
        let name = next_name(&mut named);
        assert!(!seen.contains(&name), "{name}");
        seen.push(name);
    }
}
