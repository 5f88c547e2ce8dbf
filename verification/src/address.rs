//! The asset address, and its conversion from and to an address of the base
//! payment network.

use crate::base::{BaseAddress, BaseAddressView};
use crate::error::Error;
use crate::network::Network;
use crate::order::{compare_then, reverse_order, then_order};
use crate::payload::{Payload, PayloadView, HASH_LEN};
use std::cmp::Ordering;
use vstd::prelude::*;

verus! {

/// Leading byte of every encoded asset address. It tells an asset address
/// from a base address that commits to the same hash.
pub const NAMESPACE: u8 = 0x13;

/// Number of bytes that an asset address is encoded from: the namespace
/// byte, the version byte and the hash.
pub const ENCODED_LEN: usize = 22;

/// An Open Assets address.
///
/// The payload of an asset address is a public-key hash or a script hash.
/// The fields are private and `new` is the only way to make a value, so no
/// address with another payload exists. That is the invariant of the type,
/// and the functions that read the hash rest on it: none of them has to say
/// what the text of an address on a witness program would be.
///
/// Two addresses are equal exactly if they have the same network and the
/// same payload. Order and hash go by the network first, then the payload.
#[derive(Debug, Eq, Ord, Hash)]
pub struct Address {
    network: Network,
    payload: Payload,
}

/// An asset address as a mathematical value.
pub struct AddressView {
    pub network: Network,
    pub payload: PayloadView,
}

impl AddressView {
    /// Whether an asset address can have this view: the payload is a hash of
    /// 20 bytes.
    pub open spec fn wf(self) -> bool {
        self.payload.is_hash() && self.payload.hash().len() == HASH_LEN
    }

    /// The asset address for a payload on a network. There is none unless
    /// the payload is a hash.
    pub open spec fn new(payload: PayloadView, network: Network) -> Result<AddressView, Error> {
        if payload.is_hash() {
            Ok(AddressView { network, payload })
        } else {
            Err(Error::UnsupportedPayload)
        }
    }

    /// The order of two asset addresses: by network, then by payload.
    pub open spec fn order(self, other: AddressView) -> Ordering {
        then_order(self.network.order(other.network), self.payload.order(other.payload))
    }

    /// Two asset addresses are in neither order exactly if they are equal:
    /// if they have the same network and the same payload.
    pub proof fn lemma_order_equal(self, other: AddressView)
        ensures
            self.order(other) == Ordering::Equal <==> self == other,
    {
        self.network.lemma_order_equal(other.network);
        self.payload.lemma_order_equal(other.payload);
    }

    /// Taken the other way round, two asset addresses are in the reverse
    /// order.
    pub proof fn lemma_order_reverse(self, other: AddressView)
        ensures
            other.order(self) == reverse_order(self.order(other)),
    {
        self.network.lemma_order_reverse(other.network);
        self.payload.lemma_order_reverse(other.payload);
    }

    /// An asset address that comes before a second comes before every asset
    /// address that the second comes before.
    pub proof fn lemma_order_transitive(self, second: AddressView, third: AddressView)
        requires
            self.order(second) == Ordering::Less,
            second.order(third) == Ordering::Less,
        ensures
            self.order(third) == Ordering::Less,
    {
        self.network.lemma_order_equal(second.network);
        second.network.lemma_order_equal(third.network);
        if self.network.order(second.network) == Ordering::Less && second.network.order(
            third.network,
        ) == Ordering::Less {
            self.network.lemma_order_transitive(second.network, third.network);
        }
        if self.payload.order(second.payload) == Ordering::Less && second.payload.order(
            third.payload,
        ) == Ordering::Less {
            self.payload.lemma_order_transitive(second.payload, third.payload);
        }
    }

    /// The base address with the same network and payload.
    pub open spec fn to_btc_addr(self) -> BaseAddressView {
        BaseAddressView { payload: self.payload, network: self.network }
    }

    /// The bytes that the text of the address encodes: the namespace byte,
    /// the version byte of the network, then the hash.
    pub open spec fn to_bytes(self) -> Seq<u8> {
        seq![NAMESPACE, self.network.version_byte()] + self.payload.hash()
    }
}

impl BaseAddressView {
    /// The asset address with the same network and payload. There is none
    /// unless the payload is a hash.
    pub open spec fn to_oa_address(self) -> Result<AddressView, Error> {
        AddressView::new(self.payload, self.network)
    }
}

impl View for Address {
    type V = AddressView;

    closed spec fn view(&self) -> AddressView {
        AddressView { network: self.network, payload: self.payload@ }
    }
}

impl PartialEq for Address {
    fn eq(&self, other: &Address) -> (equal: bool) {
        self.network == other.network && self.payload == other.payload
    }
}

impl vstd::std_specs::cmp::PartialEqSpecImpl for Address {
    open spec fn obeys_eq_spec() -> bool {
        true
    }

    open spec fn eq_spec(&self, other: &Address) -> bool {
        self@ == other@
    }
}

impl PartialOrd for Address {
    fn partial_cmp(&self, other: &Address) -> (order: Option<Ordering>) {
        Some(self.compare(other))
    }
}

impl vstd::std_specs::cmp::PartialOrdSpecImpl for Address {
    open spec fn obeys_partial_cmp_spec() -> bool {
        true
    }

    open spec fn partial_cmp_spec(&self, other: &Address) -> Option<Ordering> {
        Some(self@.order(other@))
    }
}

impl Clone for Address {
    fn clone(&self) -> (copy: Self)
        ensures
            copy@ == self@,
    {
        proof {
            use_type_invariant(self);
        }
        Address { network: self.network, payload: self.payload.clone() }
    }
}

impl Address {
    #[verifier::type_invariant]
    spec fn payload_is_hash(self) -> bool {
        self.payload@.is_hash()
    }

    /// Makes the asset address for a payload on a network.
    ///
    /// Fails with `Error::UnsupportedPayload` unless the payload is a
    /// public-key hash or a script hash.
    pub fn new(payload: Payload, network: Network) -> (made: Result<Address, Error>)
        ensures
            match made {
                Ok(address) => AddressView::new(payload@, network) == Ok::<AddressView, Error>(
                    address@,
                ) && address@.wf(),
                Err(error) => AddressView::new(payload@, network) == Err::<AddressView, Error>(
                    error,
                ),
            },
    {
        match payload {
            Payload::PubkeyHash(_) | Payload::ScriptHash(_) => Ok(Address { network, payload }),
            Payload::WitnessProgram { .. } => Err(Error::UnsupportedPayload),
        }
    }

    /// Compares two asset addresses: by network, then by payload.
    pub fn compare(&self, other: &Address) -> (order: Ordering)
        ensures
            order == self@.order(other@),
    {
        compare_then(self.network.compare(other.network), self.payload.compare(&other.payload))
    }

    /// The network on which the address is usable.
    pub fn network(&self) -> (network: Network)
        ensures
            network == self@.network,
    {
        self.network
    }

    /// What the address commits to: always a hash.
    pub fn payload(&self) -> (payload: &Payload)
        ensures
            payload@ == self@.payload,
            self@.wf(),
    {
        proof {
            use_type_invariant(self);
        }
        &self.payload
    }

    /// The base address with the same network and payload. Never fails.
    pub fn to_btc_addr(&self) -> (made: Result<BaseAddress, Error>)
        ensures
            made matches Ok(base) && base@ == self@.to_btc_addr(),
            self@.wf(),
    {
        proof {
            use_type_invariant(self);
        }
        Ok(BaseAddress { network: self.network, payload: self.payload.clone() })
    }

    /// The hash that the address commits to.
    ///
    /// The invariant of the type rules a witness program out, so the arm for
    /// it is proved never to run.
    pub fn hash(&self) -> (hash: &[u8; 20])
        ensures
            hash@ == self@.payload.hash(),
            self@.wf(),
    {
        proof {
            use_type_invariant(self);
        }
        match &self.payload {
            Payload::PubkeyHash(hash) => hash,
            Payload::ScriptHash(hash) => hash,
            Payload::WitnessProgram { .. } => unreached(),
        }
    }

    /// The 22 bytes that the text of the address encodes. The text is their
    /// Base58Check encoding.
    ///
    /// A public-key hash and a script hash give the same bytes: the encoding
    /// does not record which of the two the hash is.
    pub fn to_bytes(&self) -> (bytes: [u8; 22])
        ensures
            bytes@ == self@.to_bytes(),
            self@.wf(),
    {
        let hash = self.hash();
        let mut prefixed = [0u8; 22];
        prefixed[0] = NAMESPACE;
        prefixed[1] = self.network.version_byte();
        let mut i: usize = 0;
        while i < 20
            invariant
                i <= 20,
                prefixed@[0] == NAMESPACE,
                prefixed@[1] == self.network.version_byte(),
                forall|j: int| 0 <= j < i ==> prefixed@[2 + j] == hash@[j],
            decreases 20 - i,
        {
            prefixed[i + 2] = hash[i];
            i += 1;
        }
        assert(prefixed@ =~= self@.to_bytes());
        prefixed
    }
}

/// Conversion into an asset address.
pub trait OAAddressConverter {
    /// The base address that `self` stands for.
    spec fn base_address(&self) -> BaseAddressView;

    /// The asset address with the network and payload of `self`.
    ///
    /// Fails with `Error::UnsupportedPayload` unless the payload is a
    /// public-key hash or a script hash.
    fn to_oa_address(&self) -> (made: Result<Address, Error>)
        ensures
            match made {
                Ok(address) => self.base_address().to_oa_address() == Ok::<AddressView, Error>(
                    address@,
                ) && address@.wf(),
                Err(error) => self.base_address().to_oa_address() == Err::<AddressView, Error>(
                    error,
                ),
            },
    ;
}

impl OAAddressConverter for BaseAddress {
    open spec fn base_address(&self) -> BaseAddressView {
        self@
    }

    fn to_oa_address(&self) -> (made: Result<Address, Error>) {
        Address::new(self.payload.clone(), self.network)
    }
}

/// A base address that commits to a hash converts to an asset address, and
/// that asset address converts back to the base address one started from.
pub proof fn lemma_round_trip(base: BaseAddressView)
    requires
        base.payload.is_hash(),
    ensures
        base.to_oa_address() matches Ok(asset) && asset.to_btc_addr() == base,
{
}

/// An asset address converts to a base address, and that base address
/// converts back to the asset address one started from.
pub proof fn lemma_round_trip_from_asset(asset: AddressView)
    requires
        asset.wf(),
    ensures
        asset.to_btc_addr().to_oa_address() == Ok::<AddressView, Error>(asset),
{
}

/// A base address that commits to a witness program has no asset address.
pub proof fn lemma_witness_program_rejected(base: BaseAddressView)
    requires
        base.payload is WitnessProgram,
    ensures
        base.to_oa_address() == Err::<AddressView, Error>(Error::UnsupportedPayload),
{
}

/// An asset address is encoded from 22 bytes, and the first of them is the
/// namespace byte `0x13`, whatever the network and the kind of hash.
pub proof fn lemma_namespace_byte(asset: AddressView)
    requires
        asset.wf(),
    ensures
        asset.to_bytes().len() == ENCODED_LEN,
        asset.to_bytes()[0] == 0x13,
{
}

/// The second byte that an asset address is encoded from is `0x00` on a
/// production network and `0x6F` on a test network.
pub proof fn lemma_version_byte(asset: AddressView)
    requires
        asset.wf(),
    ensures
        asset.network.is_production() ==> asset.to_bytes()[1] == 0x00,
        !asset.network.is_production() ==> asset.to_bytes()[1] == 0x6F,
{
}

/// The bytes from the third on are the hash that the address commits to.
pub proof fn lemma_hash_bytes(asset: AddressView)
    requires
        asset.wf(),
    ensures
        asset.to_bytes().subrange(2, ENCODED_LEN as int) == asset.payload.hash(),
{
}

/// Two asset addresses are encoded from the same bytes exactly if they
/// commit to the same hash on networks with the same version byte. So the
/// bytes depend on the network and the payload alone, and of these neither
/// the kind of hash nor which of the production or of the test networks it
/// is leaves a trace.
pub proof fn lemma_same_bytes(a: AddressView, b: AddressView)
    requires
        a.wf(),
        b.wf(),
    ensures
        a.to_bytes() == b.to_bytes() <==> a.payload.hash() == b.payload.hash()
            && a.network.is_production() == b.network.is_production(),
{
    lemma_hash_bytes(a);
    lemma_hash_bytes(b);
    lemma_version_byte(a);
    lemma_version_byte(b);
    if a.payload.hash() == b.payload.hash() && a.network.is_production()
        == b.network.is_production() {
        assert(a.to_bytes() =~= b.to_bytes());
    }
}

} // verus!
