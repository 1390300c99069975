//! Who is at the other end of a connection, as the kernel keeps it.
//!
//! Three numbers arrive with every accepted connection: a process, a user and
//! a group. A user is the identity; the process and the group are carried for
//! whoever reads a log and are never part of a decision.
//!
//! `-1` (`u32::MAX`) is what every Unix call answers with when there is no
//! user or group, so it is refused at the one door a raw number comes in by.

use vstd::prelude::*;

use crate::refusing::NotAUser;

verus! {

/// The value every Unix call answers with when there is no user or group.
pub const NOBODY_AT_ALL: u32 = 0xffff_ffffu32;

/// A user of this machine.
#[derive(Debug, Clone, Copy, PartialEq, Eq, Hash, Structural)]
pub struct Uid(u32);

impl Uid {
    /// No user is `-1`.
    #[verifier::type_invariant]
    spec fn is_a_user(self) -> bool {
        self.0 != NOBODY_AT_ALL
    }

    /// The number this user is.
    pub closed spec fn number(self) -> u32 {
        self.0
    }

    /// The user this number names, or `NoSuchUser` for `-1`.
    pub fn of(raw: u32) -> (made: Result<Uid, NotAUser>)
        ensures
            raw == NOBODY_AT_ALL ==> made == Err::<Uid, NotAUser>(NotAUser::NoSuchUser),
            raw != NOBODY_AT_ALL ==> (made matches Ok(user) && user.number() == raw),
    {
        if raw == NOBODY_AT_ALL {
            return Err(NotAUser::NoSuchUser);
        }
        Ok(Uid(raw))
    }

    /// The number, for whoever has to hand it back to the machine.
    pub fn raw(self) -> (number: u32)
        ensures
            number == self.number(),
            number != NOBODY_AT_ALL,
    {
        proof {
            use_type_invariant(&self);
        }
        self.0
    }

    /// Whether this is root.
    pub fn is_root(self) -> (root: bool)
        ensures
            root == (self.number() == 0),
    {
        self.0 == 0
    }
}

/// A group on this machine.
#[derive(Debug, Clone, Copy, PartialEq, Eq, Hash, Structural)]
pub struct Gid(u32);

impl Gid {
    /// No group is `-1`.
    #[verifier::type_invariant]
    spec fn is_a_group(self) -> bool {
        self.0 != NOBODY_AT_ALL
    }

    /// The number this group is.
    pub closed spec fn number(self) -> u32 {
        self.0
    }

    /// The group this number names, or `NoSuchGroup` for `-1`.
    pub fn of(raw: u32) -> (made: Result<Gid, NotAUser>)
        ensures
            raw == NOBODY_AT_ALL ==> made == Err::<Gid, NotAUser>(NotAUser::NoSuchGroup),
            raw != NOBODY_AT_ALL ==> (made matches Ok(group) && group.number() == raw),
    {
        if raw == NOBODY_AT_ALL {
            return Err(NotAUser::NoSuchGroup);
        }
        Ok(Gid(raw))
    }

    /// The number, for whoever has to hand it back to the machine.
    pub fn raw(self) -> (number: u32)
        ensures
            number == self.number(),
            number != NOBODY_AT_ALL,
    {
        proof {
            use_type_invariant(&self);
        }
        self.0
    }
}

/// Who is at the other end of an accepted connection.
#[derive(Debug, Clone, Copy, PartialEq, Eq, Structural)]
pub struct Caller {
    /// The process that connected. Carried, never asked.
    process: i32,
    /// The user it is running as. This is the identity.
    user: Uid,
    /// The group it is running as. Carried, never asked.
    group: Gid,
}

impl Caller {
    /// The process this caller was made with.
    pub closed spec fn spec_process(self) -> i32 {
        self.process
    }

    /// The user this caller was made with.
    pub closed spec fn spec_user(self) -> Uid {
        self.user
    }

    /// The group this caller was made with.
    pub closed spec fn spec_group(self) -> Gid {
        self.group
    }

    /// What the kernel said about this connection.
    pub fn known(process: i32, user: Uid, group: Gid) -> (caller: Caller)
        ensures
            caller.spec_process() == process,
            caller.spec_user() == user,
            caller.spec_group() == group,
    {
        Caller { process, user, group }
    }

    /// The process at the other end, for a person reading a log.
    pub fn process(&self) -> (process: i32)
        ensures
            process == self.spec_process(),
    {
        self.process
    }

    /// The user at the other end, which is who this caller is.
    pub fn user(&self) -> (user: Uid)
        ensures
            user == self.spec_user(),
    {
        self.user
    }

    /// The group at the other end.
    pub fn group(&self) -> (group: Gid)
        ensures
            group == self.spec_group(),
    {
        self.group
    }
}

/// One number is one user: two users with the same number are the same user.
pub proof fn one_number_is_one_user(a: Uid, b: Uid)
    requires
        a.number() == b.number(),
    ensures
        a == b,
{
}

/// One number is one group: two groups with the same number are the same group.
pub proof fn one_number_is_one_group(a: Gid, b: Gid)
    requires
        a.number() == b.number(),
    ensures
        a == b,
{
}

} // verus!
