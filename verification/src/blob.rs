//! The blob existence checker's response shaping.

use vstd::prelude::*;

use crate::messages::LayerExistsResult;

verus! {

/// Collapses the outcome of a metadata query on a committed layer's path
/// into the response of the existence operation: the byte length on
/// success; a uniform miss, with neither length nor cause, on any
/// failure, be it an absent file or a storage error.
pub fn layer_exists(stat_outcome: Option<u64>) -> (r: LayerExistsResult)
    ensures
        stat_outcome matches Some(len) ==> r.success && r.length == len,
        stat_outcome is None ==> !r.success && r.length == 0,
{
    match stat_outcome {
        Some(len) => LayerExistsResult { success: true, length: len },
        None => LayerExistsResult { success: false, length: 0 },
    }
}

} // verus!
