//! What an address commits to: a hash of 20 bytes, or a witness program.

use crate::bytes::bytes_equal;
use crate::order::{
    byte_order, bytes_order, compare_byte, compare_bytes, compare_then, lemma_bytes_order_equal,
    lemma_bytes_order_reverse, lemma_bytes_order_transitive, reverse_order, then_order,
};
use std::cmp::Ordering;
use vstd::prelude::*;

verus! {

/// Length in bytes of a public-key hash or script hash.
pub const HASH_LEN: usize = 20;

/// What an address commits to.
///
/// Two payloads are equal exactly if they are of the same kind and hold the
/// same bytes, and for a witness program the same version. A public-key hash
/// comes before a script hash and that before a witness program. Two of one
/// kind are ordered by their bytes as in a dictionary, two witness programs
/// by their versions first.
#[derive(Debug, Eq, Ord, Hash)]
pub enum Payload {
    /// The hash of a public key.
    PubkeyHash([u8; 20]),
    /// The hash of a script.
    ScriptHash([u8; 20]),
    /// A segregated-witness program under its version.
    WitnessProgram { version: u8, program: Vec<u8> },
}

/// A payload as a mathematical value.
pub enum PayloadView {
    PubkeyHash(Seq<u8>),
    ScriptHash(Seq<u8>),
    WitnessProgram { version: u8, program: Seq<u8> },
}

impl PayloadView {
    /// Whether the payload is a public-key hash or a script hash.
    pub open spec fn is_hash(self) -> bool {
        self is PubkeyHash || self is ScriptHash
    }

    /// The place of the kind of payload among the kinds.
    pub open spec fn rank(self) -> u8 {
        match self {
            PayloadView::PubkeyHash(_) => 0,
            PayloadView::ScriptHash(_) => 1,
            PayloadView::WitnessProgram { .. } => 2,
        }
    }

    /// The order of two payloads: by kind, and within a kind by what they
    /// hold.
    pub open spec fn order(self, other: PayloadView) -> Ordering {
        match (self, other) {
            (PayloadView::PubkeyHash(left), PayloadView::PubkeyHash(right)) => bytes_order(
                left,
                right,
            ),
            (PayloadView::ScriptHash(left), PayloadView::ScriptHash(right)) => bytes_order(
                left,
                right,
            ),
            (
                PayloadView::WitnessProgram { version: left_version, program: left },
                PayloadView::WitnessProgram { version: right_version, program: right },
            ) => then_order(byte_order(left_version, right_version), bytes_order(left, right)),
            _ => byte_order(self.rank(), other.rank()),
        }
    }

    /// Two payloads are in neither order exactly if they are equal.
    pub proof fn lemma_order_equal(self, other: PayloadView)
        ensures
            self.order(other) == Ordering::Equal <==> self == other,
    {
        match (self, other) {
            (PayloadView::PubkeyHash(left), PayloadView::PubkeyHash(right)) => {
                lemma_bytes_order_equal(left, right);
            },
            (PayloadView::ScriptHash(left), PayloadView::ScriptHash(right)) => {
                lemma_bytes_order_equal(left, right);
            },
            (
                PayloadView::WitnessProgram { program: left, .. },
                PayloadView::WitnessProgram { program: right, .. },
            ) => {
                lemma_bytes_order_equal(left, right);
            },
            _ => {},
        }
    }

    /// Taken the other way round, two payloads are in the reverse order.
    pub proof fn lemma_order_reverse(self, other: PayloadView)
        ensures
            other.order(self) == reverse_order(self.order(other)),
    {
        match (self, other) {
            (PayloadView::PubkeyHash(left), PayloadView::PubkeyHash(right)) => {
                lemma_bytes_order_reverse(left, right);
            },
            (PayloadView::ScriptHash(left), PayloadView::ScriptHash(right)) => {
                lemma_bytes_order_reverse(left, right);
            },
            (
                PayloadView::WitnessProgram { program: left, .. },
                PayloadView::WitnessProgram { program: right, .. },
            ) => {
                lemma_bytes_order_reverse(left, right);
            },
            _ => {},
        }
    }

    /// A payload that comes before a second comes before every payload that
    /// the second comes before.
    pub proof fn lemma_order_transitive(self, second: PayloadView, third: PayloadView)
        requires
            self.order(second) == Ordering::Less,
            second.order(third) == Ordering::Less,
        ensures
            self.order(third) == Ordering::Less,
    {
        match (self, second, third) {
            (
                PayloadView::PubkeyHash(a),
                PayloadView::PubkeyHash(b),
                PayloadView::PubkeyHash(c),
            ) => {
                lemma_bytes_order_transitive(a, b, c);
            },
            (
                PayloadView::ScriptHash(a),
                PayloadView::ScriptHash(b),
                PayloadView::ScriptHash(c),
            ) => {
                lemma_bytes_order_transitive(a, b, c);
            },
            (
                PayloadView::WitnessProgram { program: a, .. },
                PayloadView::WitnessProgram { program: b, .. },
                PayloadView::WitnessProgram { program: c, .. },
            ) => {
                lemma_bytes_order_equal(a, b);
                lemma_bytes_order_equal(b, c);
                if bytes_order(a, b) == Ordering::Less && bytes_order(b, c) == Ordering::Less {
                    lemma_bytes_order_transitive(a, b, c);
                }
            },
            _ => {},
        }
    }

    /// The bytes of the hash, empty where the payload is none.
    pub open spec fn hash(self) -> Seq<u8> {
        match self {
            PayloadView::PubkeyHash(hash) => hash,
            PayloadView::ScriptHash(hash) => hash,
            PayloadView::WitnessProgram { .. } => Seq::empty(),
        }
    }
}

impl View for Payload {
    type V = PayloadView;

    open spec fn view(&self) -> PayloadView {
        match *self {
            Payload::PubkeyHash(hash) => PayloadView::PubkeyHash(hash@),
            Payload::ScriptHash(hash) => PayloadView::ScriptHash(hash@),
            Payload::WitnessProgram { version, program } => PayloadView::WitnessProgram {
                version,
                program: program@,
            },
        }
    }
}

impl PartialEq for Payload {
    fn eq(&self, other: &Payload) -> (equal: bool) {
        match (self, other) {
            (Payload::PubkeyHash(left), Payload::PubkeyHash(right)) => bytes_equal(
                left.as_slice(),
                right.as_slice(),
            ),
            (Payload::ScriptHash(left), Payload::ScriptHash(right)) => bytes_equal(
                left.as_slice(),
                right.as_slice(),
            ),
            (
                Payload::WitnessProgram { version: left_version, program: left },
                Payload::WitnessProgram { version: right_version, program: right },
            ) => *left_version == *right_version && bytes_equal(left.as_slice(), right.as_slice()),
            _ => false,
        }
    }
}

impl vstd::std_specs::cmp::PartialEqSpecImpl for Payload {
    open spec fn obeys_eq_spec() -> bool {
        true
    }

    open spec fn eq_spec(&self, other: &Payload) -> bool {
        self@ == other@
    }
}

impl PartialOrd for Payload {
    fn partial_cmp(&self, other: &Payload) -> (order: Option<Ordering>) {
        Some(self.compare(other))
    }
}

impl vstd::std_specs::cmp::PartialOrdSpecImpl for Payload {
    open spec fn obeys_partial_cmp_spec() -> bool {
        true
    }

    open spec fn partial_cmp_spec(&self, other: &Payload) -> Option<Ordering> {
        Some(self@.order(other@))
    }
}

impl Clone for Payload {
    fn clone(&self) -> (copy: Self)
        ensures
            copy@ == self@,
    {
        match self {
            Payload::PubkeyHash(hash) => Payload::PubkeyHash(*hash),
            Payload::ScriptHash(hash) => Payload::ScriptHash(*hash),
            Payload::WitnessProgram { version, program } => Payload::WitnessProgram {
                version: *version,
                program: program.clone(),
            },
        }
    }
}

impl Payload {
    /// The place of the kind of payload among the kinds, from 0.
    pub fn rank(&self) -> (rank: u8)
        ensures
            rank == self@.rank(),
    {
        match self {
            Payload::PubkeyHash(_) => 0,
            Payload::ScriptHash(_) => 1,
            Payload::WitnessProgram { .. } => 2,
        }
    }

    /// Compares two payloads: by kind, and within a kind by what they hold.
    pub fn compare(&self, other: &Payload) -> (order: Ordering)
        ensures
            order == self@.order(other@),
    {
        match (self, other) {
            (Payload::PubkeyHash(left), Payload::PubkeyHash(right)) => compare_bytes(
                left.as_slice(),
                right.as_slice(),
            ),
            (Payload::ScriptHash(left), Payload::ScriptHash(right)) => compare_bytes(
                left.as_slice(),
                right.as_slice(),
            ),
            (
                Payload::WitnessProgram { version: left_version, program: left },
                Payload::WitnessProgram { version: right_version, program: right },
            ) => compare_then(
                compare_byte(*left_version, *right_version),
                compare_bytes(left.as_slice(), right.as_slice()),
            ),
            _ => compare_byte(self.rank(), other.rank()),
        }
    }

    /// Whether the payload is a public-key hash or a script hash.
    pub fn is_hash(&self) -> (yes: bool)
        ensures
            yes == self@.is_hash(),
    {
        match self {
            Payload::PubkeyHash(_) | Payload::ScriptHash(_) => true,
            Payload::WitnessProgram { .. } => false,
        }
    }
}

} // verus!
