//! Path resolution for blobs on disk.
//!
//! A committed layer lives at `<root>/layers/<name>/<repo>/<digest>`; an
//! in-flight session's scratch file at `<root>/scratch/<token>`. The
//! storage root is an explicit value supplied by the caller, never read
//! from the environment.

use vstd::prelude::*;
use vstd::string::StringExecFns;

use crate::layer::Layer;

verus! {

/// The path of the committed layer `(name, repo, digest)` under `root`.
pub open spec fn layer_path_spec(
    root: Seq<char>,
    name: Seq<char>,
    repo: Seq<char>,
    digest: Seq<char>,
) -> Seq<char> {
    root + "/layers/"@ + name + "/"@ + repo + "/"@ + digest
}

/// The path of the scratch file of the session token `token` under
/// `root`.
pub open spec fn scratch_path_spec(root: Seq<char>, token: Seq<char>) -> Seq<char> {
    root + "/scratch/"@ + token
}

/// Resolves a committed layer identity to its absolute path under the
/// storage root.
pub fn layer_path(root: &str, layer: &Layer) -> (r: String)
    ensures
        r@ == layer_path_spec(root@, layer.name@, layer.repo@, layer.digest@),
{
    let mut p = root.to_owned();
    p.append("/layers/");
    p.append(layer.name.as_str());
    p.append("/");
    p.append(layer.repo.as_str());
    p.append("/");
    p.append(layer.digest.as_str());
    p
}

/// Resolves a session token to the path of its scratch file under the
/// storage root.
pub fn scratch_path(root: &str, token: &str) -> (r: String)
    ensures
        r@ == scratch_path_spec(root@, token@),
{
    let mut p = root.to_owned();
    p.append("/scratch/");
    p.append(token);
    p
}

} // verus!
