//! Which of this machine's networks a connection arrived on, read off the
//! address on this machine the connection was made to.
//!
//! The rule has no kernel in it: an IPv6 address, or loopback, names its own
//! network; an IPv4 address — including one a dual-stack listener reports as
//! IPv4-mapped (`::ffff:a.b.c.d`) — owned by exactly one reported interface is
//! that interface's network; and an address two interfaces own, or none does,
//! or one owned by an interface the kernel numbers zero, is
//! [`ArrivedOn::NothingCouldSay`], which is refused rather than guessed.
//!
//! Addresses are plain numbers here: an IPv4 address is its four octets read
//! big-endian as a `u32`, and an IPv6 address its sixteen octets read
//! big-endian as a `u128`, which is how `std::net` converts them.

use vstd::prelude::*;

verus! {

/// The lowest IPv6 address that is an IPv4 address mapped (`::ffff:0.0.0.0`).
pub const MAPPED_FIRST: u128 = 0xffff_0000_0000u128;

/// The highest IPv6 address that is an IPv4 address mapped
/// (`::ffff:255.255.255.255`).
pub const MAPPED_LAST: u128 = 0xffff_ffff_ffffu128;

/// The address on this machine a connection arrived at.
#[derive(Debug, Clone, Copy, PartialEq, Eq, Structural)]
pub enum Here {
    /// An IPv4 address, its octets read big-endian.
    V4(u32),
    /// An IPv6 address, its octets read big-endian.
    V6(u128),
}

/// One interface the kernel reports, as far as this rule reads it.
#[derive(Debug, Clone, PartialEq, Eq)]
pub struct Interface {
    /// The number the kernel gives it; zero is no interface.
    pub index: u32,
    /// What it is called.
    pub name: String,
    /// The IPv4 addresses it owns, each read big-endian.
    pub addresses: Vec<u32>,
}

/// The number the kernel gives an interface, which is never zero: zero is no
/// interface.
#[derive(Debug, Clone, Copy, PartialEq, Eq, Hash, Structural)]
pub struct NetworkIndex(u32);

impl NetworkIndex {
    /// No interface is numbered zero.
    #[verifier::type_invariant]
    spec fn numbered(self) -> bool {
        self.0 != 0
    }

    /// The number.
    pub closed spec fn index(self) -> u32 {
        self.0
    }

    /// The interface this number names, or `None` for zero.
    pub fn new(index: u32) -> (made: Option<NetworkIndex>)
        ensures
            index == 0 ==> made is None,
            index != 0 ==> (made matches Some(n) && n.index() == index),
    {
        if index == 0 {
            None
        } else {
            Some(NetworkIndex(index))
        }
    }

    /// The number, which is never zero.
    pub fn get(self) -> (index: u32)
        ensures
            index == self.index(),
            index != 0,
    {
        proof {
            use_type_invariant(&self);
        }
        self.0
    }
}

/// One number is one interface.
pub proof fn one_index_is_one_network(a: NetworkIndex, b: NetworkIndex)
    requires
        a.index() == b.index(),
    ensures
        a == b,
{
}

/// Which network a connection arrived on, as far as this machine can read it.
#[derive(Debug, Clone, Copy, PartialEq, Eq, Structural)]
pub enum ArrivedOn {
    /// The network behind the interface the kernel numbers this.
    TheNetwork(NetworkIndex),
    /// The address names its own network: IPv6, or loopback.
    ItsOwnNetwork,
    /// Which network could not be read, and what needed it is refused.
    NothingCouldSay,
}

/// The IPv4 address this is, if it is one: an IPv4 address itself, or an
/// IPv6 address that is an IPv4 address mapped.
pub open spec fn the_ipv4_of(here: Here) -> Option<u32> {
    match here {
        Here::V4(a) => Some(a),
        Here::V6(x) => if MAPPED_FIRST <= x && x <= MAPPED_LAST {
            Some((x - MAPPED_FIRST) as u32)
        } else {
            None
        },
    }
}

/// Whether an IPv4 address is loopback: `127.0.0.0/8`.
pub open spec fn is_loopback(a: u32) -> bool {
    0x7f00_0000 <= a && a <= 0x7fff_ffff
}

/// Whether this interface owns this IPv4 address.
pub open spec fn owns(interface: Interface, a: u32) -> bool {
    interface.addresses@.contains(a)
}

/// Whether the `i`th reported interface owns `a` and no other one does.
pub open spec fn the_only_owner(reported: Seq<Interface>, a: u32, i: int) -> bool {
    &&& 0 <= i < reported.len()
    &&& owns(reported[i], a)
    &&& forall|j: int| 0 <= j < reported.len() && j != i ==> !owns(#[trigger] reported[j], a)
}

/// What the rule reads a connection as, with the interface by its number.
#[derive(Debug, Clone, Copy, PartialEq, Eq, Structural)]
pub enum Reading {
    /// The network of the interface numbered this.
    Owned(u32),
    /// Its own network.
    ItsOwn,
    /// Nothing could say.
    Nothing,
}

/// The network an IPv4 address that is not loopback is on, out of the
/// interfaces reported.
pub open spec fn the_network_owning(reported: Seq<Interface>, a: u32) -> Reading {
    if exists|i: int| the_only_owner(reported, a, i) {
        let i: int = choose|i: int| the_only_owner(reported, a, i);
        if reported[i].index == 0 {
            Reading::Nothing
        } else {
            Reading::Owned(reported[i].index)
        }
    } else {
        Reading::Nothing
    }
}

/// The network a connection that arrived at `here` is on, out of `reported`.
pub open spec fn the_network(here: Here, reported: Seq<Interface>) -> Reading {
    match the_ipv4_of(here) {
        None => Reading::ItsOwn,
        Some(a) => if is_loopback(a) {
            Reading::ItsOwn
        } else {
            the_network_owning(reported, a)
        },
    }
}

/// Whether `arrived` is what `reading` says.
pub open spec fn reads_as(arrived: ArrivedOn, reading: Reading) -> bool {
    match reading {
        Reading::Owned(n) => arrived matches ArrivedOn::TheNetwork(i) && i.index() == n,
        Reading::ItsOwn => arrived == ArrivedOn::ItsOwnNetwork,
        Reading::Nothing => arrived == ArrivedOn::NothingCouldSay,
    }
}

/// Whether `addresses` holds `a`.
fn holds(addresses: &Vec<u32>, a: u32) -> (held: bool)
    ensures
        held == addresses@.contains(a),
{
    let mut k: usize = 0;
    while k < addresses.len()
        invariant
            k <= addresses.len(),
            forall|j: int| 0 <= j < k ==> addresses@[j] != a,
        decreases addresses.len() - k,
    {
        if addresses[k] == a {
            return true;
        }
        k += 1;
    }
    false
}

/// The network a connection that arrived at `here` on this machine is on,
/// out of the interfaces `reported`.
pub fn the_network_of(here: Here, reported: &[Interface]) -> (arrived: ArrivedOn)
    ensures
        reads_as(arrived, the_network(here, reported@)),
{
    let a: u32 = match here {
        Here::V6(x) => {
            if MAPPED_FIRST <= x && x <= MAPPED_LAST {
                (x - MAPPED_FIRST) as u32
            } else {
                return ArrivedOn::ItsOwnNetwork;
            }
        },
        Here::V4(a) => a,
    };
    if 0x7f00_0000 <= a && a <= 0x7fff_ffff {
        return ArrivedOn::ItsOwnNetwork;
    }
    let ghost seen = reported@;
    let mut owner: Option<usize> = None;
    let mut k: usize = 0;
    while k < reported.len()
        invariant
            k <= reported.len(),
            seen == reported@,
            the_ipv4_of(here) == Some(a),
            !is_loopback(a),
            match owner {
                None => forall|j: int| 0 <= j < k ==> !owns(#[trigger] seen[j], a),
                Some(o) => {
                    &&& o < k
                    &&& owns(seen[o as int], a)
                    &&& forall|j: int| 0 <= j < k && j != o ==> !owns(#[trigger] seen[j], a)
                },
            },
        decreases reported.len() - k,
    {
        if holds(&reported[k].addresses, a) {
            if let Some(o) = owner {
                proof {
                    assert forall|i: int| !the_only_owner(seen, a, i) by {
                        if 0 <= i < seen.len() && owns(seen[i], a) {
                            if i != o {
                                assert(owns(seen[o as int], a));
                            } else {
                                assert(owns(seen[k as int], a));
                            }
                        }
                    }
                }
                return ArrivedOn::NothingCouldSay;
            }
            owner = Some(k);
        }
        k += 1;
    }
    match owner {
        None => {
            proof {
                assert forall|i: int| !the_only_owner(seen, a, i) by {
                    if 0 <= i < seen.len() {
                        assert(!owns(seen[i], a));
                    }
                }
            }
            ArrivedOn::NothingCouldSay
        },
        Some(o) => {
            proof {
                assert(the_only_owner(seen, a, o as int));
                let i: int = choose|i: int| the_only_owner(seen, a, i);
                if i != o as int {
                    assert(owns(seen[o as int], a));
                }
                assert(i == o as int);
            }
            match NetworkIndex::new(reported[o].index) {
                None => ArrivedOn::NothingCouldSay,
                Some(index) => ArrivedOn::TheNetwork(index),
            }
        },
    }
}

/// An address two interfaces own says nothing: the reading is ambiguous, and
/// it is refused rather than resolved.
pub proof fn an_address_two_interfaces_own_says_nothing(
    here: Here,
    reported: Seq<Interface>,
    a: u32,
    i: int,
    j: int,
)
    requires
        the_ipv4_of(here) == Some(a),
        !is_loopback(a),
        0 <= i < reported.len(),
        0 <= j < reported.len(),
        i != j,
        owns(reported[i], a),
        owns(reported[j], a),
    ensures
        the_network(here, reported) == Reading::Nothing,
{
    assert forall|k: int| !the_only_owner(reported, a, k) by {
        if 0 <= k < reported.len() && owns(reported[k], a) {
            if k != i {
                assert(owns(reported[i], a));
            } else {
                assert(owns(reported[j], a));
            }
        }
    }
}

/// A connection is only ever on a network whose interface is the one and
/// only owner of the address it arrived at, and that interface is numbered.
pub proof fn a_network_is_its_address_only_owners(here: Here, reported: Seq<Interface>, n: u32)
    requires
        the_network(here, reported) == Reading::Owned(n),
    ensures
        the_ipv4_of(here) matches Some(a) && !is_loopback(a) && exists|i: int|
            the_only_owner(reported, a, i) && #[trigger] reported[i].index == n,
        n != 0,
{
    let a: u32 = the_ipv4_of(here)->0;
    let i: int = choose|i: int| the_only_owner(reported, a, i);
    assert(reported[i].index == n);
}

/// An IPv4 peer a dual-stack listener reports as an IPv4-mapped address is
/// read as the IPv4 connection it is.
pub proof fn a_mapped_address_is_read_as_ipv4(a: u32, reported: Seq<Interface>)
    ensures
        the_network(Here::V6((MAPPED_FIRST + a) as u128), reported) == the_network(Here::V4(a), reported),
{
}

/// Every IPv6 address that is not an IPv4 address mapped names its own
/// network — `::1`, link-local and global alike — whatever interfaces are
/// reported.
pub proof fn an_ipv6_address_names_its_own_network(x: u128, reported: Seq<Interface>)
    requires
        !(MAPPED_FIRST <= x && x <= MAPPED_LAST),
    ensures
        the_network(Here::V6(x), reported) == Reading::ItsOwn,
{
}

/// Loopback is its own network, over IPv4 or mapped into IPv6, whatever
/// interfaces are reported.
pub proof fn loopback_is_its_own_network(a: u32, reported: Seq<Interface>)
    requires
        0x7f00_0000 <= a <= 0x7fff_ffff,
    ensures
        the_network(Here::V4(a), reported) == Reading::ItsOwn,
        the_network(Here::V6((MAPPED_FIRST + a) as u128), reported) == Reading::ItsOwn,
{
}

/// An IPv4 address that is not loopback and that exactly one numbered
/// interface owns is on that interface's network.
pub proof fn the_only_owner_is_the_network(a: u32, reported: Seq<Interface>, i: int)
    requires
        !(0x7f00_0000 <= a <= 0x7fff_ffff),
        0 <= i < reported.len(),
        owns(reported[i], a),
        reported[i].index != 0,
        forall|j: int| 0 <= j < reported.len() && j != i ==> !owns(#[trigger] reported[j], a),
    ensures
        the_network(Here::V4(a), reported) == Reading::Owned(reported[i].index),
{
    assert(the_only_owner(reported, a, i));
    let k: int = choose|k: int| the_only_owner(reported, a, k);
    if k != i {
        assert(owns(reported[i], a));
    }
}

/// An IPv4 address that is not loopback and that no interface owns says
/// nothing.
pub proof fn an_address_nobody_owns_says_nothing(a: u32, reported: Seq<Interface>)
    requires
        !(0x7f00_0000 <= a <= 0x7fff_ffff),
        forall|j: int| 0 <= j < reported.len() ==> !owns(#[trigger] reported[j], a),
    ensures
        the_network(Here::V4(a), reported) == Reading::Nothing,
{
}

/// An address owned only by an interface the kernel numbers zero says
/// nothing: zero is no interface.
pub proof fn an_interface_numbered_zero_says_nothing(a: u32, reported: Seq<Interface>, i: int)
    requires
        !(0x7f00_0000 <= a <= 0x7fff_ffff),
        0 <= i < reported.len(),
        owns(reported[i], a),
        reported[i].index == 0,
        forall|j: int| 0 <= j < reported.len() && j != i ==> !owns(#[trigger] reported[j], a),
    ensures
        the_network(Here::V4(a), reported) == Reading::Nothing,
{
    assert(the_only_owner(reported, a, i));
    let k: int = choose|k: int| the_only_owner(reported, a, k);
    if k != i {
        assert(owns(reported[i], a));
    }
}

} // verus!
