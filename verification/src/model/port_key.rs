use vstd::prelude::*;
use super::{InputPortId, OutputPortId, PortId};

verus! {

/// The integer triple by which port identifiers are ordered and found again.
pub type KeyTriple = (u8, isize, isize);

/// Lexicographic order on key triples.
pub open spec fn key_lt(a: KeyTriple, b: KeyTriple) -> bool {
    a.0 < b.0 || (a.0 == b.0 && (a.1 < b.1 || (a.1 == b.1 && a.2 < b.2)))
}

/// Compares two key triples lexicographically.
pub fn key_less(a: KeyTriple, b: KeyTriple) -> (r: bool)
    ensures
        r == key_lt(a, b),
{
    a.0 < b.0 || (a.0 == b.0 && (a.1 < b.1 || (a.1 == b.1 && a.2 < b.2)))
}

/// A port identifier (or a pair of them) that maps one-to-one onto a key triple.
///
/// The order of the triples is the order of the identifiers' derived `Ord`.
pub trait PortKey: Sized {
    spec fn key_of(self) -> KeyTriple;

    fn key(&self) -> (r: KeyTriple)
        ensures
            r == self.key_of(),
    ;

    proof fn lemma_key_injective(a: Self, b: Self)
        ensures
            a.key_of() == b.key_of() ==> a == b,
    ;
}

impl PortKey for InputPortId {
    open spec fn key_of(self) -> KeyTriple {
        (0u8, self.0, 0isize)
    }

    fn key(&self) -> (r: KeyTriple) {
        (0, self.0, 0)
    }

    proof fn lemma_key_injective(a: Self, b: Self) {
    }
}

impl PortKey for OutputPortId {
    open spec fn key_of(self) -> KeyTriple {
        (1u8, self.0, 0isize)
    }

    fn key(&self) -> (r: KeyTriple) {
        (1, self.0, 0)
    }

    proof fn lemma_key_injective(a: Self, b: Self) {
    }
}

impl PortKey for PortId {
    open spec fn key_of(self) -> KeyTriple {
        match self {
            PortId::Input(id) => (0u8, id.0, 0isize),
            PortId::Output(id) => (1u8, id.0, 0isize),
        }
    }

    fn key(&self) -> (r: KeyTriple) {
        match self {
            PortId::Input(id) => (0, id.0, 0),
            PortId::Output(id) => (1, id.0, 0),
        }
    }

    proof fn lemma_key_injective(a: Self, b: Self) {
    }
}

impl PortKey for (OutputPortId, InputPortId) {
    open spec fn key_of(self) -> KeyTriple {
        (2u8, (self.0).0, (self.1).0)
    }

    fn key(&self) -> (r: KeyTriple) {
        (2, (self.0).0, (self.1).0)
    }

    proof fn lemma_key_injective(a: Self, b: Self) {
    }
}

} // verus!
