//! The relay slot: a single-capacity buffer bridging one encode call to its
//! matching decode call.
use vstd::prelude::*;

verus! {

/// The scalar written to the wire in place of every passthrough value.
pub const SENTINEL: i64 = 0;

/// Why a retrieval from the relay slot failed.
#[derive(Debug, PartialEq, Eq, Structural)]
pub enum RelayError {
    /// A retrieval found nothing pending: a decode without a prior matching
    /// encode, or two round trips that overlapped.
    EmptySlot,
}

/// Holds at most one pending value between a deposit and its retrieval.
pub struct RelaySlot<V> {
    pending: Option<V>,
}

impl<V> View for RelaySlot<V> {
    type V = Option<V>;

    /// `None` when the slot is empty, `Some(v)` when `v` is pending.
    closed spec fn view(&self) -> Option<V> {
        self.pending
    }
}

/// The slot's contents once `v` is deposited into contents `s`: whatever was
/// pending is replaced.
pub open spec fn deposited<V>(s: Option<V>, v: V) -> Option<V> {
    Some(v)
}

/// What a retrieval from contents `s` returns: the pending value, or
/// `EmptySlot` when there is none.
pub open spec fn retrieved<V>(s: Option<V>) -> Result<V, RelayError> {
    match s {
        Some(v) => Ok(v),
        None => Err(RelayError::EmptySlot),
    }
}

/// The slot's contents after a retrieval from contents `s`, successful or not.
pub open spec fn after_retrieve<V>(s: Option<V>) -> Option<V> {
    None
}

impl<V> RelaySlot<V> {
    /// An empty slot.
    pub fn new() -> (s: Self)
        ensures
            s@ is None,
    {
        RelaySlot { pending: None }
    }

    /// Whether a value is pending.
    pub fn is_full(&self) -> (r: bool)
        ensures
            r == self@ is Some,
    {
        self.pending.is_some()
    }

    /// Places `v` in the slot. A value already pending is overwritten and lost.
    pub fn deposit(&mut self, v: V)
        ensures
            final(self)@ == deposited(old(self)@, v),
    {
        self.pending = Some(v);
    }

    /// Moves the pending value out, leaving the slot empty. On an empty slot
    /// nothing is produced: the caller's round trip is broken.
    pub fn retrieve(&mut self) -> (r: Result<V, RelayError>)
        ensures
            r == retrieved(old(self)@),
            final(self)@ == after_retrieve(old(self)@),
    {
        match self.pending.take() {
            Some(v) => Ok(v),
            None => Err(RelayError::EmptySlot),
        }
    }
}

/// The encode side of a passthrough field: deposits `v` and hands back the
/// sentinel to be written to the wire in its place.
pub fn encode_passthrough<V>(slot: &mut RelaySlot<V>, v: V) -> (wire: i64)
    ensures
        wire == SENTINEL,
        final(slot)@ == deposited(old(slot)@, v),
{
    slot.deposit(v);
    SENTINEL
}

/// The decode side of a passthrough field: the scalar read from the wire is
/// discarded, and the pending value is moved out of the slot.
pub fn decode_passthrough<V>(slot: &mut RelaySlot<V>, _wire: i64) -> (r: Result<V, RelayError>)
    ensures
        r == retrieved(old(slot)@),
        final(slot)@ == after_retrieve(old(slot)@),
{
    slot.retrieve()
}

/// Round trip: whatever was pending before, a value deposited and then
/// retrieved comes back as that very value, and the slot is left empty.
pub proof fn lemma_round_trip<V>(s: Option<V>, v: V)
    ensures
        retrieved(deposited(s, v)) == Ok::<V, RelayError>(v),
        after_retrieve(deposited(s, v)) is None,
{
}

/// After a retrieval, successful or not, the slot is empty.
pub proof fn lemma_empty_after_retrieve<V>(s: Option<V>)
    ensures
        after_retrieve(s) is None,
{
}

/// Retrieving from an empty slot fails with `EmptySlot`, and so does every
/// further retrieval until something is deposited: no stale or default value
/// is ever handed out.
pub proof fn lemma_empty_retrieve_fails<V>()
    ensures
        retrieved(None::<V>) == Err::<V, RelayError>(RelayError::EmptySlot),
        after_retrieve(None::<V>) is None,
{
}

/// Overwrite: after deposits of `v1` and then `v2` with no retrieval between
/// them, only `v2` can be retrieved; `v1` is gone for good, since the slot is
/// empty once `v2` has been taken.
pub proof fn lemma_overwrite<V>(s: Option<V>, v1: V, v2: V)
    ensures
        deposited(deposited(s, v1), v2) == deposited(s, v2),
        retrieved(deposited(deposited(s, v1), v2)) == Ok::<V, RelayError>(v2),
        retrieved(after_retrieve(deposited(deposited(s, v1), v2))) == Err::<V, RelayError>(
            RelayError::EmptySlot,
        ),
{
}

} // verus!
