//! Signer derivation: a deterministic, collision-free authority derived
//! from a pool's identity and a private derivation tag.
//!
//! The tag is process-lifetime secret state of the engine: it is set once
//! at construction and no accessor, receipt or instruction ever exposes it.
//! The derived authority itself is an opaque value — its inner field is
//! private and it carries no formatting impl — so it can be handed to the
//! external transfer primitive as proof of authorization without making
//! the derivation reproducible from the public pool record.

use vstd::prelude::*;

verus! {

/// An opaque signing identity for outgoing transfers.  Values can only be
/// compared; nothing reads the inner value back out.
#[derive(Clone, Copy, PartialEq, Eq, Structural)]
pub struct DerivedAuthority {
    value: u64,
}

impl DerivedAuthority {
    /// The inner value, visible to specifications only.
    pub closed spec fn value_spec(self) -> u64 {
        self.value
    }
}

/// The engine: holds the private derivation tag for the lifetime of the
/// process and derives transfer authorities from it.
pub struct Engine {
    tag: u64,
}

impl Engine {
    /// The private derivation tag, visible to specifications only.
    pub closed spec fn tag_spec(self) -> u64 {
        self.tag
    }

    /// The authority this engine derives for a pool identity: a pure
    /// function of the identity and the engine's private tag.
    pub closed spec fn authority_of(self, identity: u64) -> DerivedAuthority {
        DerivedAuthority { value: self.tag ^ identity }
    }

    /// Builds an engine around a derivation tag.  The tag is supplied once
    /// and never read back out.
    pub fn new(tag: u64) -> (e: Engine)
        ensures
            e.tag_spec() == tag,
    {
        Engine { tag }
    }

    /// Derives the transfer authority for `identity`.  Kept crate-private:
    /// the authority leaves the engine only inside a transfer instruction,
    /// at the moment the external primitive is invoked.
    pub(crate) fn authority_for(&self, identity: u64) -> (a: DerivedAuthority)
        ensures
            a == self.authority_of(identity),
    {
        DerivedAuthority { value: self.tag ^ identity }
    }

    /// Determinism: the derived authority is a function of the tag and the
    /// pool identity alone, so two engines sharing a tag agree on every
    /// pool.
    pub proof fn lemma_derivation_deterministic(self, other: Engine, identity: u64)
        requires
            self.tag_spec() == other.tag_spec(),
        ensures
            self.authority_of(identity) == other.authority_of(identity),
    {
    }

    /// Collision freedom: distinct pools derive distinct authorities.
    pub proof fn lemma_distinct_pools_distinct_authorities(self, id1: u64, id2: u64)
        requires
            id1 != id2,
        ensures
            self.authority_of(id1) != self.authority_of(id2),
    {
        let t = self.tag_spec();
        assert(t ^ id1 != t ^ id2) by (bit_vector)
            requires
                id1 != id2,
        ;
    }

    /// Non-recoverable derivation: the authority depends on the private
    /// tag, so a computation over the public pool record alone — that is,
    /// any derivation attempt made with a tag other than the engine's —
    /// yields a different authority for the same identity.
    pub proof fn lemma_derivation_needs_tag(self, other: Engine, identity: u64)
        requires
            self.tag_spec() != other.tag_spec(),
        ensures
            self.authority_of(identity) != other.authority_of(identity),
    {
        let t1 = self.tag_spec();
        let t2 = other.tag_spec();
        assert(t1 ^ identity != t2 ^ identity) by (bit_vector)
            requires
                t1 != t2,
        ;
    }
}

} // verus!
