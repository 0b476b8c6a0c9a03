//! The set of services that a peer advertises, kept as a 64-bit field.
//!
//! A [`ServiceFlags`] value is a plain 64-bit pattern: every pattern is a legal
//! set, whether or not each of its bits has a name here. Its view is the set of
//! the positions of the bits that are set, so that `|`, `&` and `!` read as
//! union, intersection and complement.

use crate::service_laws::{
    lemma_and_is_intersection, lemma_has_is_subset, lemma_named_constants, lemma_not_is_complement,
    lemma_or_is_union,
};
use vstd::prelude::*;

verus! {

/// A set of advertised services: one bit per service.
///
/// No operation tells a bit with a name from one without: a service that a
/// newer peer announces passes through this type like any other.
#[derive(Debug, Clone, Copy, PartialEq, Eq, Structural)]
pub struct ServiceFlags(pub u64);

/// The named sets. They are functions, so that each states the bit it stands
/// for, and they can be named in contracts as well as in code.
#[allow(non_snake_case)]
impl ServiceFlags {
    /// No service at all.
    #[verifier::allow_in_spec]
    pub fn NONE() -> (flags: ServiceFlags)
        ensures
            flags@ == Set::<nat>::empty(),
        returns
            ServiceFlags(0),
    {
        proof {
            lemma_named_constants();
        }
        ServiceFlags(0)
    }

    /// Bit 0: the peer serves the whole block chain.
    #[verifier::allow_in_spec]
    pub fn NETWORK() -> (flags: ServiceFlags)
        ensures
            flags@ == set![0nat],
        returns
            ServiceFlags(0x1),
    {
        proof {
            lemma_named_constants();
        }
        ServiceFlags(0x1)
    }

    /// Bit 1: the peer answers queries on unspent outputs.
    #[verifier::allow_in_spec]
    pub fn GETUTXO() -> (flags: ServiceFlags)
        ensures
            flags@ == set![1nat],
        returns
            ServiceFlags(0x2),
    {
        proof {
            lemma_named_constants();
        }
        ServiceFlags(0x2)
    }

    /// Bit 2: the peer accepts connections that ask for bloom filtering.
    #[verifier::allow_in_spec]
    pub fn BLOOM() -> (flags: ServiceFlags)
        ensures
            flags@ == set![2nat],
        returns
            ServiceFlags(0x4),
    {
        proof {
            lemma_named_constants();
        }
        ServiceFlags(0x4)
    }

    /// Bit 3: the peer understands segregated witness data.
    #[verifier::allow_in_spec]
    pub fn WITNESS() -> (flags: ServiceFlags)
        ensures
            flags@ == set![3nat],
        returns
            ServiceFlags(0x8),
    {
        proof {
            lemma_named_constants();
        }
        ServiceFlags(0x8)
    }

    /// Bit 6: the peer serves basic block filters.
    #[verifier::allow_in_spec]
    pub fn COMPACT_FILTERS() -> (flags: ServiceFlags)
        ensures
            flags@ == set![6nat],
        returns
            ServiceFlags(0x40),
    {
        proof {
            lemma_named_constants();
        }
        ServiceFlags(0x40)
    }

    /// Bit 10: as `NETWORK`, but only for the last 288 blocks.
    #[verifier::allow_in_spec]
    pub fn NETWORK_LIMITED() -> (flags: ServiceFlags)
        ensures
            flags@ == set![10nat],
        returns
            ServiceFlags(0x400),
    {
        proof {
            lemma_named_constants();
        }
        ServiceFlags(0x400)
    }

    /// Bit 11: the peer speaks the encrypted version 2 transport.
    #[verifier::allow_in_spec]
    pub fn P2P_V2() -> (flags: ServiceFlags)
        ensures
            flags@ == set![11nat],
        returns
            ServiceFlags(0x800),
    {
        proof {
            lemma_named_constants();
        }
        ServiceFlags(0x800)
    }

}

impl ServiceFlags {
    /// Whether bit `i` of the field is set. No bit exists from position 64 on.
    pub open spec fn has_bit(self, i: nat) -> bool {
        i < 64 && (self.0 >> (i as u64)) & 1 == 1
    }

    /// Whether this is one of the seven services that have a name.
    pub open spec fn is_named_service(self) -> bool {
        ||| self == Self::NETWORK()
        ||| self == Self::GETUTXO()
        ||| self == Self::BLOOM()
        ||| self == Self::WITNESS()
        ||| self == Self::COMPACT_FILTERS()
        ||| self == Self::NETWORK_LIMITED()
        ||| self == Self::P2P_V2()
    }

    /// Whether this is one of the named constants: `NONE` or a named service.
    pub open spec fn is_named(self) -> bool {
        self == Self::NONE() || self.is_named_service()
    }

    /// The set with the services of either set: what `|` computes.
    pub open spec fn union(self, rhs: ServiceFlags) -> ServiceFlags {
        ServiceFlags(self.0 | rhs.0)
    }

    /// The set with the services that both sets hold: what `&` computes.
    pub open spec fn intersection(self, rhs: ServiceFlags) -> ServiceFlags {
        ServiceFlags(self.0 & rhs.0)
    }

    /// The set with the bits that this set lacks: what `!` computes.
    pub open spec fn complement(self) -> ServiceFlags {
        ServiceFlags(!self.0)
    }

    /// Whether every service of `flags` is in this set.
    #[verifier::allow_in_spec]
    pub fn has(self, flags: ServiceFlags) -> (present: bool)
        ensures
            present <==> flags@.subset_of(self@),
        returns
            (self.0 & flags.0) == flags.0,
    {
        proof {
            lemma_has_is_subset(self, flags);
        }
        (self.0 & flags.0) == flags.0
    }
}

impl View for ServiceFlags {
    type V = Set<nat>;

    /// The positions of the bits that are set.
    open spec fn view(&self) -> Set<nat> {
        Set::new(|i: nat| self.has_bit(i))
    }
}

impl core::ops::BitOr for ServiceFlags {
    type Output = ServiceFlags;

    /// The services of either set.
    fn bitor(self, rhs: ServiceFlags) -> (either: ServiceFlags)
        ensures
            either == self.union(rhs),
            either@ == self@.union(rhs@),
    {
        proof {
            lemma_or_is_union(self, rhs);
        }
        ServiceFlags(self.0 | rhs.0)
    }
}

impl vstd::std_specs::ops::BitOrSpecImpl for ServiceFlags {
    open spec fn obeys_bitor_spec() -> bool {
        true
    }

    open spec fn bitor_req(self, rhs: ServiceFlags) -> bool {
        true
    }

    open spec fn bitor_spec(self, rhs: ServiceFlags) -> ServiceFlags {
        self.union(rhs)
    }
}

impl core::ops::BitAnd for ServiceFlags {
    type Output = ServiceFlags;

    /// The services that both sets hold.
    fn bitand(self, rhs: ServiceFlags) -> (both: ServiceFlags)
        ensures
            both == self.intersection(rhs),
            both@ == self@.intersect(rhs@),
    {
        proof {
            lemma_and_is_intersection(self, rhs);
        }
        ServiceFlags(self.0 & rhs.0)
    }
}

impl vstd::std_specs::ops::BitAndSpecImpl for ServiceFlags {
    open spec fn obeys_bitand_spec() -> bool {
        true
    }

    open spec fn bitand_req(self, rhs: ServiceFlags) -> bool {
        true
    }

    open spec fn bitand_spec(self, rhs: ServiceFlags) -> ServiceFlags {
        self.intersection(rhs)
    }
}

impl core::ops::Not for ServiceFlags {
    type Output = ServiceFlags;

    /// The bits that this set lacks, named or not.
    ///
    /// Verified code calls this by name, `flags.not()`: Verus does not take the
    /// prefix `!` on a type that is not an integer or a `bool`.
    fn not(self) -> (rest: ServiceFlags)
        ensures
            rest == self.complement(),
            rest@ == Set::new(|i: nat| i < 64 && !self@.contains(i)),
    {
        proof {
            lemma_not_is_complement(self);
        }
        ServiceFlags(!self.0)
    }
}

impl vstd::std_specs::ops::NotSpecImpl for ServiceFlags {
    open spec fn obeys_not_spec() -> bool {
        true
    }

    open spec fn not_req(self) -> bool {
        true
    }

    open spec fn not_spec(self) -> ServiceFlags {
        self.complement()
    }
}

} // verus!
