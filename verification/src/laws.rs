//! Laws of the session registry, stated over its view.
//!
//! Each law relates the contracts of the registry's operations: creation
//! inserts the returned token's key, cancel and delete remove the named
//! key, and a membership query reports exactly the view's contents.

use vstd::prelude::*;

use crate::layer::LayerKey;

verus! {

/// A session just created is visible: once its key is inserted, a
/// membership query for that key succeeds.
pub proof fn lemma_created_session_visible(sessions: Set<LayerKey>, k: LayerKey)
    ensures
        sessions.insert(k).contains(k),
{
}

/// A triple never touched is absent: a service that tracks no sessions
/// answers every membership query negatively.
pub proof fn lemma_untouched_triple_absent(k: LayerKey)
    ensures
        !Set::<LayerKey>::empty().contains(k),
{
}

/// A canceled or deleted session is gone: once its key is removed, a
/// membership query for that key fails.
pub proof fn lemma_removed_session_absent(sessions: Set<LayerKey>, k: LayerKey)
    ensures
        !sessions.remove(k).contains(k),
{
}

/// Two creations under distinct keys — the token generator's freshness
/// is what keeps the keys distinct — leave both sessions independently
/// visible, whichever was registered first.
pub proof fn lemma_two_creates_both_visible(
    sessions: Set<LayerKey>,
    k1: LayerKey,
    k2: LayerKey,
)
    requires
        k1 != k2,
    ensures
        sessions.insert(k1).insert(k2).contains(k1),
        sessions.insert(k1).insert(k2).contains(k2),
{
}

/// Creating or removing one session leaves every other triple's
/// membership unchanged.
pub proof fn lemma_other_triples_unaffected(
    sessions: Set<LayerKey>,
    k: LayerKey,
    other: LayerKey,
)
    requires
        k != other,
    ensures
        sessions.insert(k).contains(other) == sessions.contains(other),
        sessions.remove(k).contains(other) == sessions.contains(other),
{
}

} // verus!
