//! The identity of a container-image layer.

use vstd::prelude::*;

verus! {

/// A layer identity triple. Two kinds of digest share this type: a
/// content-addressing hash for committed layers, and an opaque session
/// token for in-flight uploads.
#[derive(Debug, Clone, PartialEq, Eq, Hash)]
pub struct Layer {
    pub name: String,
    pub repo: String,
    pub digest: String,
}

/// The mathematical identity of a `Layer`: its three fields as character
/// sequences. Contracts over the session registry speak of these keys.
pub ghost struct LayerKey {
    pub name: Seq<char>,
    pub repo: Seq<char>,
    pub digest: Seq<char>,
}

impl View for Layer {
    type V = LayerKey;

    open spec fn view(&self) -> LayerKey {
        LayerKey { name: self.name@, repo: self.repo@, digest: self.digest@ }
    }
}

/// The key of the session identified by `name`, `repo` and `digest`.
pub open spec fn triple(name: Seq<char>, repo: Seq<char>, digest: Seq<char>) -> LayerKey {
    LayerKey { name, repo, digest }
}

/// Field-by-field comparison of two layers: true exactly when their keys
/// are equal.
pub fn layer_matches(a: &Layer, b: &Layer) -> (r: bool)
    ensures
        r == (a@ == b@),
{
    a.name == b.name && a.repo == b.repo && a.digest == b.digest
}

} // verus!
