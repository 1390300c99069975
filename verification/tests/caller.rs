use alo_agentd::caller::{Caller, Gid, Uid};
use alo_agentd::refusing::NotAUser;

#[test]
fn a_user_is_a_number() {
    assert_eq!(Uid::of(1000).unwrap().raw(), 1000);
}

#[test]
fn nobody_at_all_is_not_a_user() {
    assert_eq!(Uid::of(u32::MAX), Err(NotAUser::NoSuchUser));
}

#[test]
fn nobody_at_all_is_not_a_group() {
    assert_eq!(Gid::of(u32::MAX), Err(NotAUser::NoSuchGroup));
}

#[test]
fn one_below_it_is_a_user() {
    assert!(Uid::of(u32::MAX - 1).is_ok());
    assert!(Uid::of(65534).is_ok());
}

#[test]
fn root_is_a_user_and_says_so() {
    assert!(Uid::of(0).unwrap().is_root());
    assert!(!Uid::of(1000).unwrap().is_root());
}

#[test]
fn a_caller_carries_all_three() {
    let caller = Caller::known(4321, Uid::of(1000).unwrap(), Gid::of(1001).unwrap());
    assert_eq!(caller.process(), 4321);
    assert_eq!(caller.user().raw(), 1000);
    assert_eq!(caller.group().raw(), 1001);
}

#[test]
fn a_group_is_a_number_and_one_below_nobody_is_a_group() {
    assert_eq!(Gid::of(989).unwrap().raw(), 989);
    assert_eq!(Gid::of(u32::MAX - 1).unwrap().raw(), u32::MAX - 1);
    assert_eq!(Gid::of(0).unwrap().raw(), 0);
}
