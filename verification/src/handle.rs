//! Process-wide opaque-handle registry.
//!
//! State that crosses a foreign boundary is owned by a registry and
//! referred to by an integer handle bound at creation to a runtime type
//! tag. Every access re-checks the tag, so a mismatched or stale handle is
//! rejected instead of being read as the wrong type. A mismatch is a
//! contract violation at the boundary: the registry reports it as a
//! structured error, and the boundary layer turns that into its fatal
//! error signal. The registry hands out scoped borrows, so the backing
//! state survives an access unchanged, and a destroy drops it exactly
//! once.

use vstd::prelude::*;

use std::collections::HashMap;

use crate::noise::NoiseState;
use crate::vorbis::VorbisData;

verus! {

broadcast use vstd::std_specs::hash::group_hash_axioms;

/// Runtime tag of the kind of state an entry owns.
#[derive(Debug, PartialEq, Eq, Clone, Copy, Structural)]
pub enum StateTag {
    Noise,
    LayeredNoise,
    Audio,
}

/// An opaque handle: the integer that crosses the boundary, together with
/// the tag it was bound to when the entry was created. `raw` is never 0
/// for a handle returned by the registry.
#[derive(Debug, PartialEq, Eq, Clone, Copy, Structural)]
pub struct Handle {
    pub raw: i64,
    pub tag: StateTag,
}

/// State owned by one registry entry.
pub enum StateBox {
    /// A permutation table for gradient noise.
    Noise(NoiseState),
    /// An ordered sequence of noise handles, combined for octave
    /// summation.
    LayeredNoise(Vec<Handle>),
    /// A fully decoded audio buffer.
    Audio(VorbisData),
}

impl StateBox {
    /// The tag this state is registered under.
    pub open spec fn tag(&self) -> StateTag {
        match self {
            StateBox::Noise(_) => StateTag::Noise,
            StateBox::LayeredNoise(_) => StateTag::LayeredNoise,
            StateBox::Audio(_) => StateTag::Audio,
        }
    }

    /// The tag, computed at run time.
    pub fn runtime_tag(&self) -> (t: StateTag)
        ensures
            t == self.tag(),
    {
        match self {
            StateBox::Noise(_) => StateTag::Noise,
            StateBox::LayeredNoise(_) => StateTag::LayeredNoise,
            StateBox::Audio(_) => StateTag::Audio,
        }
    }
}

/// Why an access through a handle was rejected. Both cases are programmer
/// errors at the boundary, never a recoverable runtime condition.
#[derive(Debug, PartialEq, Eq, Clone, Copy, Structural)]
pub enum HandleError {
    /// No entry is registered under the handle's integer.
    NotFound,
    /// The entry's tag differs from the one the handle claims.
    WrongType,
}

/// The registry: a map from live handle integers to the state they own,
/// plus the next integer to hand out. Integers are never reused, so a
/// destroyed handle can never alias a later entry.
pub struct HandleRegistry {
    entries: HashMap<i64, StateBox>,
    next_raw: i64,
}

impl HandleRegistry {
    /// The live entries, as a map from raw handle to owned state.
    pub closed spec fn entries(&self) -> Map<i64, StateBox> {
        self.entries@
    }

    /// The next raw handle value to be handed out.
    pub closed spec fn next(&self) -> int {
        self.next_raw as int
    }

    /// Every live handle is at least 1 and below `next`, so 0 is never
    /// live and a fresh handle collides with no live one.
    pub open spec fn well_formed(&self) -> bool {
        &&& 1 <= self.next() <= i64::MAX
        &&& forall|k: i64| self.entries().contains_key(k) ==> 1 <= k < self.next()
    }

    /// Whether another handle can still be allocated without exhausting
    /// the integer range.
    pub open spec fn can_allocate(&self) -> bool {
        self.next() < i64::MAX
    }

    /// Whether another handle can still be allocated, for callers that
    /// must test `create`'s precondition at run time.
    pub fn has_capacity(&self) -> (r: bool)
        ensures
            r == self.can_allocate(),
    {
        self.next_raw < i64::MAX
    }

    /// An empty registry.
    pub fn new() -> (r: Self)
        ensures
            r.well_formed(),
            r.can_allocate(),
            r.entries() == Map::<i64, StateBox>::empty(),
    {
        HandleRegistry { entries: HashMap::new(), next_raw: 1 }
    }

    /// Move `state` into the registry and return a fresh handle bound to
    /// its tag. The handle is distinct from every live and every
    /// previously destroyed one.
    pub fn create(&mut self, state: StateBox) -> (h: Handle)
        requires
            old(self).well_formed(),
            old(self).can_allocate(),
        ensures
            final(self).well_formed(),
            h.raw != 0,
            h.tag == state.tag(),
            !old(self).entries().contains_key(h.raw),
            final(self).entries() == old(self).entries().insert(h.raw, state),
            final(self).next() == old(self).next() + 1,
    {
        let raw = self.next_raw;
        self.next_raw = self.next_raw + 1;
        let tag = state.runtime_tag();
        self.entries.insert(raw, state);
        proof {
            assert forall|k: i64| self.entries().contains_key(k) implies 1 <= k < self.next() by {
                if k != raw {
                    assert(old(self).entries().contains_key(k));
                }
            }
        }
        Handle { raw, tag }
    }

    /// Rebuild a handle from a raw integer that arrived over the
    /// boundary, checking that an entry exists and carries the expected
    /// tag.
    pub fn wrap(&self, raw: i64, tag: StateTag) -> (r: Result<Handle, HandleError>)
        ensures
            match r {
                Ok(h) => {
                    &&& self.entries().contains_key(raw)
                    &&& self.entries()[raw].tag() == tag
                    &&& h == (Handle { raw, tag })
                },
                Err(HandleError::NotFound) => !self.entries().contains_key(raw),
                Err(HandleError::WrongType) => {
                    &&& self.entries().contains_key(raw)
                    &&& self.entries()[raw].tag() != tag
                },
            },
            r is Ok <==> self.entries().contains_key(raw) && self.entries()[raw].tag() == tag,
    {
        match self.entries.get(&raw) {
            None => Err(HandleError::NotFound),
            Some(state) => {
                if state.runtime_tag() == tag {
                    Ok(Handle { raw, tag })
                } else {
                    Err(HandleError::WrongType)
                }
            },
        }
    }

    /// Type-check a handle and lend a borrow of the state it refers to.
    /// The registry is untouched: the entry still owns the state after
    /// the borrow ends.
    pub fn use_handle(&self, h: Handle) -> (r: Result<&StateBox, HandleError>)
        ensures
            match r {
                Ok(s) => {
                    &&& self.entries().contains_key(h.raw)
                    &&& self.entries()[h.raw].tag() == h.tag
                    &&& *s == self.entries()[h.raw]
                },
                Err(HandleError::NotFound) => !self.entries().contains_key(h.raw),
                Err(HandleError::WrongType) => {
                    &&& self.entries().contains_key(h.raw)
                    &&& self.entries()[h.raw].tag() != h.tag
                },
            },
            r is Ok <==> self.entries().contains_key(h.raw) && self.entries()[h.raw].tag()
                == h.tag,
    {
        match self.entries.get(&h.raw) {
            None => Err(HandleError::NotFound),
            Some(state) => {
                if state.runtime_tag() == h.tag {
                    Ok(state)
                } else {
                    Err(HandleError::WrongType)
                }
            },
        }
    }

    /// Type-check a slice of same-tagged handles and lend one borrow per
    /// handle, in input order. Succeeds exactly when every handle would
    /// succeed alone; the registry is unchanged either way.
    pub fn use_handles(&self, handles: &Vec<Handle>) -> (r: Result<Vec<&StateBox>, HandleError>)
        ensures
            r is Ok <==> (forall|i: int|
                0 <= i < handles@.len() ==> self.entries().contains_key(#[trigger] handles@[i].raw)
                    && self.entries()[handles@[i].raw].tag() == handles@[i].tag),
            match r {
                Ok(refs) => {
                    &&& refs@.len() == handles@.len()
                    &&& forall|i: int|
                        0 <= i < handles@.len() ==> *#[trigger] refs@[i] == self.entries()[handles@[i].raw]
                },
                Err(HandleError::NotFound) => exists|i: int|
                    0 <= i < handles@.len() && !self.entries().contains_key(
                        #[trigger] handles@[i].raw,
                    ),
                Err(HandleError::WrongType) => exists|i: int|
                    0 <= i < handles@.len() && self.entries().contains_key(
                        #[trigger] handles@[i].raw,
                    ) && self.entries()[handles@[i].raw].tag() != handles@[i].tag,
            },
    {
        let mut refs: Vec<&StateBox> = Vec::new();
        let n = handles.len();
        let mut i: usize = 0;
        while i < n
            invariant
                i <= n,
                n == handles@.len(),
                refs@.len() == i,
                forall|j: int|
                    0 <= j < i ==> self.entries().contains_key(#[trigger] handles@[j].raw)
                        && self.entries()[handles@[j].raw].tag() == handles@[j].tag,
                forall|j: int|
                    0 <= j < i ==> *#[trigger] refs@[j] == self.entries()[handles@[j].raw],
            decreases n - i,
        {
            let h = handles[i];
            match self.entries.get(&h.raw) {
                None => {
                    return Err(HandleError::NotFound);
                },
                Some(state) => {
                    if state.runtime_tag() == h.tag {
                        refs.push(state);
                    } else {
                        return Err(HandleError::WrongType);
                    }
                },
            }
            i = i + 1;
        }
        Ok(refs)
    }

    /// Type-check a handle, remove its entry and drop the owned state,
    /// exactly once. The handle's integer is never handed out again.
    pub fn destroy(&mut self, h: Handle) -> (r: Result<(), HandleError>)
        requires
            old(self).well_formed(),
        ensures
            final(self).well_formed(),
            final(self).next() == old(self).next(),
            match r {
                Ok(_) => {
                    &&& old(self).entries().contains_key(h.raw)
                    &&& old(self).entries()[h.raw].tag() == h.tag
                    &&& final(self).entries() == old(self).entries().remove(h.raw)
                },
                Err(HandleError::NotFound) => {
                    &&& !old(self).entries().contains_key(h.raw)
                    &&& final(self).entries() == old(self).entries()
                },
                Err(HandleError::WrongType) => {
                    &&& old(self).entries().contains_key(h.raw)
                    &&& old(self).entries()[h.raw].tag() != h.tag
                    &&& final(self).entries() == old(self).entries()
                },
            },
            r is Ok <==> old(self).entries().contains_key(h.raw) && old(self).entries()[h.raw].tag() == h.tag,
    {
        let tag_ok = match self.entries.get(&h.raw) {
            None => {
                return Err(HandleError::NotFound);
            },
            Some(state) => state.runtime_tag() == h.tag,
        };
        if !tag_ok {
            return Err(HandleError::WrongType);
        }
        self.entries.remove(&h.raw);
        Ok(())
    }
}

/// Law: destroying the handle that a create returned restores the
/// registry's entries exactly — nothing leaks and nothing else is touched
/// — and the destroyed handle is no longer registered, so by the contracts
/// of `wrap`, `use_handle` and `destroy` any later access through the
/// stale value is rejected as `NotFound`.
pub proof fn lemma_create_destroy_round_trip(
    r0: HandleRegistry,
    r1: HandleRegistry,
    r2: HandleRegistry,
    h: Handle,
    s: StateBox,
)
    requires
        !r0.entries().contains_key(h.raw),
        r1.entries() == r0.entries().insert(h.raw, s),
        r2.entries() == r1.entries().remove(h.raw),
    ensures
        r2.entries() == r0.entries(),
        !r2.entries().contains_key(h.raw),
{
    assert(r0.entries().insert(h.raw, s).remove(h.raw) =~= r0.entries());
}

} // verus!
