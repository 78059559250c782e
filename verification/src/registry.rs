//! Resource registry: the bookkeeping for the opaque, runtime-managed
//! handles that cross the boundary. Three distinct resource kinds are
//! registered exactly once at module load; after that, native values
//! are wrapped into typed tokens with shared-ownership counting, and
//! every operation that receives a token back checks its kind before
//! touching it.
//!
//! This is a verified model of the bookkeeping the host runtime's own
//! resource machinery performs around every call — wrap on the way
//! out, kind-checked unwrap on the way in, retain on sharing, release
//! on reclamation. The operation facade itself works on typed handles,
//! so it does not call through this registry; the host-side glue's
//! registration and finalization follow this model.

use vstd::prelude::*;

use crate::errors::BoundaryError;

verus! {

/// The three opaque resource kinds the boundary knows. They are typed:
/// a token of one kind can never be used where another is expected.
#[derive(Debug, Clone, Copy, PartialEq, Eq, Structural)]
pub enum ResourceKind {
    Database,
    Tree,
    Config,
}

/// One live registry slot: the kind of the wrapped native instance and
/// how many host-side holders still reference it.
#[derive(Debug, Clone, Copy, PartialEq, Eq, Structural)]
pub struct Slot {
    pub kind: ResourceKind,
    pub refcount: u64,
}

/// The registry itself. A token is an index into `slots`; a reclaimed
/// token's slot is `None` and is never reused, so a stale token can
/// always be recognized.
pub struct Registry {
    registered: bool,
    slots: Vec<Option<Slot>>,
}

/// Every live slot in a slot sequence has at least one holder.
pub open spec fn slots_wf(s: Seq<Option<Slot>>) -> bool {
    forall|t: int| 0 <= t < s.len() && (#[trigger] s[t]) is Some ==> s[t]->Some_0.refcount >= 1
}

/// Updating one slot to a well-formed value keeps the sequence
/// well-formed.
proof fn lemma_update_keeps_wf(s: Seq<Option<Slot>>, i: int, v: Option<Slot>)
    requires
        slots_wf(s),
        0 <= i < s.len(),
        v is Some ==> v->Some_0.refcount >= 1,
    ensures
        slots_wf(s.update(i, v)),
{
    assert forall|t: int|
        0 <= t < s.update(i, v).len() && (#[trigger] s.update(i, v)[t]) is Some implies s.update(
        i,
        v,
    )[t]->Some_0.refcount >= 1 by {
        if t != i {
            assert(s.update(i, v)[t] == s[t]);
        }
    }
}

impl Registry {
    /// True once the three resource kinds have been registered with
    /// the host runtime; no wrap or unwrap may run before that.
    pub closed spec fn is_registered(self) -> bool {
        self.registered
    }

    /// The registry's contents, token by token.
    pub closed spec fn slots_view(self) -> Seq<Option<Slot>> {
        self.slots@
    }

    /// The slot a token addresses, if the token was ever issued.
    pub open spec fn slot_of(self, token: int) -> Option<Slot>
        recommends
            0 <= token < self.slots_view().len(),
    {
        self.slots_view()[token]
    }

    /// A token is live while its native instance still has holders.
    pub open spec fn is_live(self, token: int) -> bool {
        &&& 0 <= token < self.slots_view().len()
        &&& self.slot_of(token) is Some
    }

    /// Well-formed: every live slot has at least one holder.
    pub open spec fn wf(self) -> bool {
        slots_wf(self.slots_view())
    }

    /// A fresh registry: nothing registered, nothing wrapped.
    pub fn new() -> (r: Registry)
        ensures
            !r.is_registered(),
            r.slots_view().len() == 0,
            r.wf(),
    {
        Registry { registered: false, slots: Vec::new() }
    }

    /// Module-load step: registers the three resource kinds with the
    /// host runtime. Succeeds exactly once; a second registration is
    /// rejected, and module load must then fail. Nothing already
    /// wrapped is disturbed.
    pub fn register_kinds(&mut self) -> (ok: bool)
        ensures
            ok == !old(self).is_registered(),
            final(self).is_registered() == (ok || old(self).is_registered()),
            final(self).slots_view() == old(self).slots_view(),
            final(self).wf() == old(self).wf(),
    {
        if self.registered {
            false
        } else {
            self.registered = true;
            true
        }
    }

    /// Wraps a native instance of the given kind, establishing one
    /// host-side reference, and returns the token the host runtime
    /// will hold. Tokens are never reused.
    pub fn wrap(&mut self, kind: ResourceKind) -> (token: usize)
        requires
            old(self).is_registered(),
            old(self).wf(),
        ensures
            final(self).wf(),
            final(self).is_registered(),
            token == old(self).slots_view().len(),
            final(self).slots_view() == old(self).slots_view().push(
                Some(Slot { kind: kind, refcount: 1u64 }),
            ),
            final(self).is_live(token as int),
            final(self).slot_of(token as int) == Some(Slot { kind: kind, refcount: 1u64 }),
    {
        let token = self.slots.len();
        self.slots.push(Some(Slot { kind: kind, refcount: 1u64 }));
        proof {
            assert forall|t: int|
                0 <= t < self.slots@.len() && (#[trigger] self.slots@[t]) is Some implies self.slots@[t]->Some_0.refcount
                >= 1 by {
                if t < old(self).slots@.len() {
                    assert(self.slots@[t] == old(self).slots@[t]);
                }
            }
        }
        token
    }

    /// The unwrap step that begins every operation receiving a
    /// resource argument: checks that the token is live and of the
    /// expected kind. Fails with a typed wrong-resource-kind error
    /// otherwise — this is the defense against cross-type misuse.
    pub fn unwrap(&self, token: usize, expected: ResourceKind) -> (r: Result<(), BoundaryError>)
        requires
            self.is_registered(),
        ensures
            r is Ok <==> self.is_live(token as int) && self.slot_of(
                token as int,
            )->Some_0.kind == expected,
            r is Err ==> r->Err_0 == (BoundaryError::WrongResourceKind {
                expected: expected,
                found: if self.is_live(token as int) {
                    Some(self.slot_of(token as int)->Some_0.kind)
                } else {
                    None::<ResourceKind>
                },
            }),
    {
        if token < self.slots.len() {
            match self.slots[token] {
                Some(slot) => {
                    if slot.kind == expected {
                        Ok(())
                    } else {
                        Err(
                            BoundaryError::WrongResourceKind {
                                expected: expected,
                                found: Some(slot.kind),
                            },
                        )
                    }
                },
                None => Err(
                    BoundaryError::WrongResourceKind { expected: expected, found: None },
                ),
            }
        } else {
            Err(BoundaryError::WrongResourceKind { expected: expected, found: None })
        }
    }

    /// One more host-side holder of the same native instance, as
    /// happens whenever a handle value is cloned or stored: shared
    /// ownership, never a deep copy.
    pub fn retain(&mut self, token: usize) -> (ok: bool)
        requires
            old(self).is_registered(),
            old(self).wf(),
        ensures
            final(self).wf(),
            final(self).is_registered(),
            ok == (old(self).is_live(token as int) && old(self).slot_of(
                token as int,
            )->Some_0.refcount < u64::MAX),
            ok ==> final(self).slots_view() == old(self).slots_view().update(
                token as int,
                Some(
                    Slot {
                        kind: old(self).slot_of(token as int)->Some_0.kind,
                        refcount: (old(self).slot_of(token as int)->Some_0.refcount + 1) as u64,
                    },
                ),
            ),
            !ok ==> final(self).slots_view() == old(self).slots_view(),
    {
        if token < self.slots.len() {
            match self.slots[token] {
                Some(slot) => {
                    if slot.refcount < u64::MAX {
                        self.slots.set(
                            token,
                            Some(Slot { kind: slot.kind, refcount: slot.refcount + 1 }),
                        );
                        proof {
                            lemma_update_keeps_wf(
                                old(self).slots@,
                                token as int,
                                self.slots@[token as int],
                            );
                        }
                        true
                    } else {
                        false
                    }
                },
                None => false,
            }
        } else {
            false
        }
    }

    /// Finalization: the host runtime found a handle unreachable, so
    /// one reference is released. When the last reference goes, the
    /// slot is emptied — only then may the native instance itself shut
    /// down. Releasing a stale token reports `false` and changes
    /// nothing.
    pub fn release(&mut self, token: usize) -> (was_live: bool)
        requires
            old(self).is_registered(),
            old(self).wf(),
        ensures
            final(self).wf(),
            final(self).is_registered(),
            was_live == old(self).is_live(token as int),
            was_live ==> final(self).slots_view() == old(self).slots_view().update(
                token as int,
                if old(self).slot_of(token as int)->Some_0.refcount == 1 {
                    None::<Slot>
                } else {
                    Some(
                        Slot {
                            kind: old(self).slot_of(token as int)->Some_0.kind,
                            refcount: (old(self).slot_of(token as int)->Some_0.refcount
                                - 1) as u64,
                        },
                    )
                },
            ),
            !was_live ==> final(self).slots_view() == old(self).slots_view(),
    {
        if token < self.slots.len() {
            match self.slots[token] {
                Some(slot) => {
                    if slot.refcount == 1 {
                        self.slots.set(token, None);
                    } else {
                        self.slots.set(
                            token,
                            Some(Slot { kind: slot.kind, refcount: slot.refcount - 1 }),
                        );
                    }
                    proof {
                        lemma_update_keeps_wf(
                            old(self).slots@,
                            token as int,
                            self.slots@[token as int],
                        );
                    }
                    true
                },
                None => false,
            }
        } else {
            false
        }
    }
}

} // verus!
