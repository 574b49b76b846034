//! The state that all components of one engine share: the identities it has
//! handed out and the registrations of function types it has taken.

use crate::code::TypeCollection;
use vstd::prelude::*;

verus! {

/// The shared state of an engine. Every identity it hands out is new: it has
/// never handed out the same number before.
pub struct Engine {
    next_identity: u64,
    registrations: u64,
}

impl Engine {
    #[verifier::type_invariant]
    closed spec fn inv(self) -> bool {
        self.registrations <= self.next_identity
    }

    /// How many identities the engine has handed out.
    pub closed spec fn issued(&self) -> nat {
        self.next_identity as nat
    }

    /// How many registrations of function types the engine has taken.
    pub closed spec fn registered(&self) -> nat {
        self.registrations as nat
    }

    /// Whether no identity is left to hand out.
    pub open spec fn exhausted(&self) -> bool {
        self.issued() >= u64::MAX
    }

    /// Whether `later` is this engine after it has handed out the one identity
    /// `id`.
    pub open spec fn issues(&self, later: Engine, id: u64) -> bool {
        &&& id as nat == self.issued()
        &&& later.issued() == self.issued() + 1
    }

    /// An engine that has handed out and registered nothing yet.
    pub fn new() -> (r: Engine)
        ensures
            r.issued() == 0,
            r.registered() == 0,
    {
        Engine { next_identity: 0, registrations: 0 }
    }

    /// How many identities the engine has handed out.
    pub fn num_issued(&self) -> (r: u64)
        ensures
            r as nat == self.issued(),
    {
        self.next_identity
    }

    /// How many registrations of function types the engine has taken.
    pub fn num_registered(&self) -> (r: u64)
        ensures
            r as nat == self.registered(),
    {
        self.registrations
    }

    /// Tests whether no identity is left to hand out.
    pub fn is_exhausted(&self) -> (r: bool)
        ensures
            r == self.exhausted(),
    {
        self.next_identity == u64::MAX
    }

    /// Hands out an identity that this engine has not handed out before.
    pub fn fresh_identity(&mut self) -> (id: u64)
        requires
            !old(self).exhausted(),
        ensures
            old(self).issues(*final(self), id),
            final(self).registered() == old(self).registered(),
    {
        proof {
            use_type_invariant(&*self);
        }
        let id = self.next_identity;
        self.next_identity = id + 1;
        id
    }

    /// Takes the function types of one compilation into the registry, under
    /// an identity that this engine has not handed out before. Each call is a
    /// registration of its own; nothing is shared with an earlier one.
    pub fn register_signatures(&mut self) -> (r: TypeCollection)
        requires
            !old(self).exhausted(),
        ensures
            r.registration as nat == old(self).issued(),
            final(self).issued() == old(self).issued() + 1,
            final(self).registered() == old(self).registered() + 1,
    {
        proof {
            use_type_invariant(&*self);
        }
        let id = self.next_identity;
        self.next_identity = id + 1;
        self.registrations = self.registrations + 1;
        TypeCollection { registration: id }
    }
}

/// Of two identities that one engine hands out, the later differs from the
/// earlier: whatever happens in between, as long as the engine never goes back
/// to a state in which it had handed out fewer.
pub proof fn lemma_later_identity_differs(
    before_first: Engine,
    after_first: Engine,
    before_second: Engine,
    after_second: Engine,
    first: u64,
    second: u64,
)
    requires
        before_first.issues(after_first, first),
        before_second.issues(after_second, second),
        after_first.issued() <= before_second.issued(),
    ensures
        first != second,
{
}

} // verus!
