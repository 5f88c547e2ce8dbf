//! The networks of the base payment system, and the version byte that each
//! gives to its addresses.

use crate::order::{byte_order, compare_byte, reverse_order};
use std::cmp::Ordering;
use vstd::prelude::*;

verus! {

/// Version byte of an address on a production network.
pub const VERSION_PRODUCTION: u8 = 0x00;

/// Version byte of an address on a test network.
pub const VERSION_TEST: u8 = 0x6F;

/// The network that an address is usable on.
///
/// The networks are ordered as they are listed.
#[derive(Clone, Copy, Debug, PartialEq, Eq, Ord, Hash, Structural)]
pub enum Network {
    /// The main network.
    Bitcoin,
    /// The Paradium production network.
    Paradium,
    /// The public test network.
    Testnet,
    /// A local regression-test network.
    Regtest,
}

impl Network {
    /// Whether the network is one of the production networks.
    pub open spec fn spec_is_production(self) -> bool {
        self is Bitcoin || self is Paradium
    }

    /// Whether the network is one of the production networks, `Bitcoin` and
    /// `Paradium`, and not one of the test networks, `Testnet` and `Regtest`.
    #[verifier::when_used_as_spec(spec_is_production)]
    pub fn is_production(self) -> (yes: bool)
        ensures
            yes == self.spec_is_production(),
    {
        match self {
            Network::Bitcoin | Network::Paradium => true,
            Network::Testnet | Network::Regtest => false,
        }
    }

    /// The place of the network among the networks.
    pub open spec fn spec_rank(self) -> u8 {
        match self {
            Network::Bitcoin => 0,
            Network::Paradium => 1,
            Network::Testnet => 2,
            Network::Regtest => 3,
        }
    }

    /// The place of the network among the networks, from 0.
    #[verifier::when_used_as_spec(spec_rank)]
    pub fn rank(self) -> (rank: u8)
        ensures
            rank == self.spec_rank(),
    {
        match self {
            Network::Bitcoin => 0,
            Network::Paradium => 1,
            Network::Testnet => 2,
            Network::Regtest => 3,
        }
    }

    /// The order of two networks: that of their places.
    pub open spec fn order(self, other: Network) -> Ordering {
        byte_order(self.rank(), other.rank())
    }

    /// Two networks are in neither order exactly if they are the same.
    pub proof fn lemma_order_equal(self, other: Network)
        ensures
            self.order(other) == Ordering::Equal <==> self == other,
    {
    }

    /// Taken the other way round, two networks are in the reverse order.
    pub proof fn lemma_order_reverse(self, other: Network)
        ensures
            other.order(self) == reverse_order(self.order(other)),
    {
    }

    /// A network that comes before a second comes before every network that
    /// the second comes before.
    pub proof fn lemma_order_transitive(self, second: Network, third: Network)
        requires
            self.order(second) == Ordering::Less,
            second.order(third) == Ordering::Less,
        ensures
            self.order(third) == Ordering::Less,
    {
    }

    /// Compares two networks.
    pub fn compare(self, other: Network) -> (order: Ordering)
        ensures
            order == self.order(other),
    {
        compare_byte(self.rank(), other.rank())
    }

    /// The version byte that the network gives to its addresses.
    pub open spec fn spec_version_byte(self) -> u8 {
        if self.is_production() {
            VERSION_PRODUCTION
        } else {
            VERSION_TEST
        }
    }

    /// The version byte that the network gives to its addresses: `0x00` on
    /// the production networks, `0x6F` on the test networks.
    #[verifier::when_used_as_spec(spec_version_byte)]
    pub fn version_byte(self) -> (byte: u8)
        ensures
            byte == self.spec_version_byte(),
    {
        match self {
            Network::Bitcoin | Network::Paradium => VERSION_PRODUCTION,
            Network::Testnet | Network::Regtest => VERSION_TEST,
        }
    }
}

impl PartialOrd for Network {
    fn partial_cmp(&self, other: &Network) -> (order: Option<Ordering>) {
        Some(self.compare(*other))
    }
}

impl vstd::std_specs::cmp::PartialOrdSpecImpl for Network {
    open spec fn obeys_partial_cmp_spec() -> bool {
        true
    }

    open spec fn partial_cmp_spec(&self, other: &Network) -> Option<Ordering> {
        Some(self.order(*other))
    }
}

} // verus!
