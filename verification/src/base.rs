//! The address of the base payment network, as far as an asset address
//! depends on it: a payload on a network.

use crate::network::Network;
use crate::order::{compare_then, reverse_order, then_order};
use crate::payload::{Payload, PayloadView};
use std::cmp::Ordering;
use vstd::prelude::*;

verus! {

/// An address of the base payment network.
///
/// Two base addresses are equal exactly if they have the same payload and
/// the same network. They are ordered by the payload first, then by the
/// network.
#[derive(Debug, Eq, Ord, Hash)]
pub struct BaseAddress {
    /// What the address commits to.
    pub payload: Payload,
    /// The network on which the address is usable.
    pub network: Network,
}

/// A base address as a mathematical value.
pub struct BaseAddressView {
    pub payload: PayloadView,
    pub network: Network,
}

impl BaseAddressView {
    /// The order of two base addresses: by payload, then by network.
    pub open spec fn order(self, other: BaseAddressView) -> Ordering {
        then_order(self.payload.order(other.payload), self.network.order(other.network))
    }

    /// Two base addresses are in neither order exactly if they are equal.
    pub proof fn lemma_order_equal(self, other: BaseAddressView)
        ensures
            self.order(other) == Ordering::Equal <==> self == other,
    {
        self.payload.lemma_order_equal(other.payload);
        self.network.lemma_order_equal(other.network);
    }

    /// Taken the other way round, two base addresses are in the reverse
    /// order.
    pub proof fn lemma_order_reverse(self, other: BaseAddressView)
        ensures
            other.order(self) == reverse_order(self.order(other)),
    {
        self.payload.lemma_order_reverse(other.payload);
        self.network.lemma_order_reverse(other.network);
    }

    /// A base address that comes before a second comes before every base
    /// address that the second comes before.
    pub proof fn lemma_order_transitive(self, second: BaseAddressView, third: BaseAddressView)
        requires
            self.order(second) == Ordering::Less,
            second.order(third) == Ordering::Less,
        ensures
            self.order(third) == Ordering::Less,
    {
        self.payload.lemma_order_equal(second.payload);
        second.payload.lemma_order_equal(third.payload);
        if self.payload.order(second.payload) == Ordering::Less && second.payload.order(
            third.payload,
        ) == Ordering::Less {
            self.payload.lemma_order_transitive(second.payload, third.payload);
        }
        if self.network.order(second.network) == Ordering::Less && second.network.order(
            third.network,
        ) == Ordering::Less {
            self.network.lemma_order_transitive(second.network, third.network);
        }
    }
}

impl View for BaseAddress {
    type V = BaseAddressView;

    open spec fn view(&self) -> BaseAddressView {
        BaseAddressView { payload: self.payload@, network: self.network }
    }
}

impl PartialEq for BaseAddress {
    fn eq(&self, other: &BaseAddress) -> (equal: bool) {
        self.network == other.network && self.payload == other.payload
    }
}

impl vstd::std_specs::cmp::PartialEqSpecImpl for BaseAddress {
    open spec fn obeys_eq_spec() -> bool {
        true
    }

    open spec fn eq_spec(&self, other: &BaseAddress) -> bool {
        self@ == other@
    }
}

impl BaseAddress {
    /// Compares two base addresses: by payload, then by network.
    pub fn compare(&self, other: &BaseAddress) -> (order: Ordering)
        ensures
            order == self@.order(other@),
    {
        compare_then(self.payload.compare(&other.payload), self.network.compare(other.network))
    }
}

impl PartialOrd for BaseAddress {
    fn partial_cmp(&self, other: &BaseAddress) -> (order: Option<Ordering>) {
        Some(self.compare(other))
    }
}

impl vstd::std_specs::cmp::PartialOrdSpecImpl for BaseAddress {
    open spec fn obeys_partial_cmp_spec() -> bool {
        true
    }

    open spec fn partial_cmp_spec(&self, other: &BaseAddress) -> Option<Ordering> {
        Some(self@.order(other@))
    }
}

impl Clone for BaseAddress {
    fn clone(&self) -> (copy: Self)
        ensures
            copy@ == self@,
    {
        BaseAddress { payload: self.payload.clone(), network: self.network }
    }
}

} // verus!
