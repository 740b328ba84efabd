//! The in-memory registry of active upload sessions.
//!
//! The registry owns the only shared mutable state of the backend. Its
//! view is the set of identity keys of the sessions it tracks; at most
//! one session exists per key. Callers that share one service across
//! concurrent requests serialize access with an exclusive lock of their
//! own, so every method here works on the plain value.

use vstd::prelude::*;

use crate::layer::{layer_matches, triple, Layer, LayerKey};
use crate::messages::{GenUuidResult, OpResult, UuidList};

verus! {

broadcast use vstd::seq_lib::lemma_seq_contains_after_push;

/// Struct implementing the storage-side callbacks for the frontend.
///
/// `uploads` holds every upload session that is currently tracked.
pub struct BackendService {
    uploads: Vec<Layer>,
}

/// Relies on uuid::Uuid::new_v4 and its text rendering: a freshly
/// generated random version-4 token in the hyphenated form. Nothing is
/// assumed of the value; freshness is the generator's own business.
#[verifier::external_body]
fn fresh_token() -> (r: String) {
    uuid::Uuid::new_v4().to_string()
}

/// Does some tracked session carry `token` as its digest?
pub open spec fn active_token(sessions: Set<LayerKey>, token: Seq<char>) -> bool {
    exists|k: LayerKey| #[trigger] sessions.contains(k) && k.digest == token
}

impl View for BackendService {
    type V = Set<LayerKey>;

    closed spec fn view(&self) -> Set<LayerKey> {
        self.keys().to_set()
    }
}

/// Pushing a key absent from a duplicate-free key sequence keeps it
/// duplicate-free and inserts the key into the corresponding set.
proof fn lemma_push_key(s: Seq<LayerKey>, k: LayerKey)
    requires
        s.no_duplicates(),
        !s.contains(k),
    ensures
        s.push(k).no_duplicates(),
        s.push(k).to_set() =~= s.to_set().insert(k),
{
    assert forall|x: int, y: int|
        0 <= x < s.push(k).len() && 0 <= y < s.push(k).len() && x != y implies s.push(k)[x]
        != s.push(k)[y] by {
        if x < s.len() && y < s.len() {
            assert(s.push(k)[x] == s[x]);
            assert(s.push(k)[y] == s[y]);
        } else if x < s.len() {
            assert(s.contains(s[x]));
            assert(s.push(k)[y] == k);
        } else {
            assert(s.push(k)[x] == k);
        }
    }
}

/// Removing the entry at index `i` from a duplicate-free key sequence
/// keeps it duplicate-free and removes exactly that key from the
/// corresponding set.
proof fn lemma_remove_key(s: Seq<LayerKey>, i: int)
    requires
        s.no_duplicates(),
        0 <= i < s.len(),
    ensures
        s.remove(i).no_duplicates(),
        s.remove(i).to_set() =~= s.to_set().remove(s[i]),
{
    s.remove_ensures(i);
    assert forall|k: LayerKey| s.remove(i).to_set().contains(k) implies s.to_set().remove(
        s[i],
    ).contains(k) by {
        let j = choose|j: int| 0 <= j < s.remove(i).len() && s.remove(i)[j] == k;
        if j < i {
            assert(s[j] == k);
            assert(s.contains(k));
        } else {
            assert(s[j + 1] == k);
            assert(s.contains(k));
        }
    }
    assert forall|k: LayerKey| s.to_set().remove(s[i]).contains(k) implies s.remove(
        i,
    ).to_set().contains(k) by {
        let j = choose|j: int| 0 <= j < s.len() && s[j] == k;
        if j < i {
            assert(s.remove(i)[j] == k);
            assert(s.remove(i).contains(k));
        } else {
            assert(j != i);
            assert(s.remove(i)[j - 1] == k);
            assert(s.remove(i).contains(k));
        }
    }
}

/// Finds the index of the session whose key equals `target`'s, if one is
/// tracked.
fn find_session(v: &Vec<Layer>, target: &Layer) -> (r: Option<usize>)
    ensures
        match r {
            Some(i) => i < v@.len() && v@[i as int]@ == target@,
            None => forall|i: int| 0 <= i < v@.len() ==> v@[i]@ != target@,
        },
{
    let mut i: usize = 0;
    while i < v.len()
        invariant
            i <= v@.len(),
            forall|j: int| 0 <= j < i ==> v@[j]@ != target@,
        decreases v@.len() - i,
    {
        if layer_matches(&v[i], target) {
            return Some(i);
        }
        i = i + 1;
    }
    None
}

impl BackendService {
    /// The keys of the tracked sessions, in insertion order.
    spec fn keys(self) -> Seq<LayerKey> {
        self.uploads@.map_values(|l: Layer| l@)
    }

    /// At most one tracked session per identity triple.
    #[verifier::type_invariant]
    spec fn wf(self) -> bool {
        self.keys().no_duplicates()
    }

    /// A service that tracks no sessions.
    pub fn new() -> (s: Self)
        ensures
            s@ == Set::<LayerKey>::empty(),
    {
        let s = BackendService { uploads: Vec::new() };
        proof {
            assert(s.keys() =~= Seq::<LayerKey>::empty());
            assert(s@ =~= Set::<LayerKey>::empty());
        }
        s
    }

    /// Starts tracking `layer` as an open upload session. Returns whether
    /// the triple was fresh; a triple already tracked is left as it is.
    pub fn register_session(&mut self, layer: Layer) -> (fresh: bool)
        ensures
            fresh == !old(self)@.contains(layer@),
            final(self)@ == old(self)@.insert(layer@),
    {
        proof {
            use_type_invariant(&*self);
        }
        let found = find_session(&self.uploads, &layer);
        match found {
            Some(i) => {
                proof {
                    assert(self.keys()[i as int] == layer@);
                    assert(self.keys().contains(layer@));
                    assert(old(self)@ =~= old(self)@.insert(layer@));
                }
                false
            },
            None => {
                proof {
                    assert(!self.keys().contains(layer@)) by {
                        if self.keys().contains(layer@) {
                            let j = choose|j: int|
                                0 <= j < self.keys().len() && self.keys()[j] == layer@;
                            assert(self.uploads@[j]@ != layer@);
                        }
                    }
                }
                let ghost pre = self.keys();
                let mut v: Vec<Layer> = Vec::new();
                core::mem::swap(&mut v, &mut self.uploads);
                let ghost k = layer@;
                v.push(layer);
                proof {
                    assert(v@.map_values(|l: Layer| l@) =~= pre.push(k));
                    lemma_push_key(pre, k);
                }
                self.uploads = v;
                true
            },
        }
    }

    /// Membership test: is the session with this identity triple tracked?
    pub fn uuid_exists(&self, name: &str, repo: &str, digest: &str) -> (r: OpResult)
        ensures
            r.success == self@.contains(triple(name@, repo@, digest@)),
    {
        let target = Layer {
            name: name.to_owned(),
            repo: repo.to_owned(),
            digest: digest.to_owned(),
        };
        let found = find_session(&self.uploads, &target);
        match found {
            Some(i) => {
                proof {
                    assert(self.keys()[i as int] == target@);
                    assert(self.keys().contains(target@));
                }
                OpResult { success: true }
            },
            None => {
                proof {
                    assert(!self.keys().contains(target@)) by {
                        if self.keys().contains(target@) {
                            let j = choose|j: int|
                                0 <= j < self.keys().len() && self.keys()[j] == target@;
                            assert(self.uploads@[j]@ != target@);
                        }
                    }
                }
                OpResult { success: false }
            },
        }
    }

    /// Stops tracking the session with this identity triple, if it is
    /// tracked. Returns whether it was.
    fn remove_session(&mut self, name: &str, repo: &str, digest: &str) -> (was: bool)
        ensures
            was == old(self)@.contains(triple(name@, repo@, digest@)),
            final(self)@ == old(self)@.remove(triple(name@, repo@, digest@)),
    {
        proof {
            use_type_invariant(&*self);
        }
        let target = Layer {
            name: name.to_owned(),
            repo: repo.to_owned(),
            digest: digest.to_owned(),
        };
        let found = find_session(&self.uploads, &target);
        match found {
            Some(i) => {
                proof {
                    assert(self.keys()[i as int] == target@);
                    assert(self.keys().contains(target@));
                }
                let ghost pre = self.keys();
                let mut v: Vec<Layer> = Vec::new();
                core::mem::swap(&mut v, &mut self.uploads);
                let _removed = v.remove(i);
                proof {
                    assert(v@.map_values(|l: Layer| l@) =~= pre.remove(i as int)) by {
                        pre.remove_ensures(i as int);
                    }
                    lemma_remove_key(pre, i as int);
                }
                self.uploads = v;
                true
            },
            None => {
                proof {
                    assert(!self.keys().contains(target@)) by {
                        if self.keys().contains(target@) {
                            let j = choose|j: int|
                                0 <= j < self.keys().len() && self.keys()[j] == target@;
                            assert(self.uploads@[j]@ != target@);
                        }
                    }
                    assert(old(self)@ =~= old(self)@.remove(target@));
                }
                false
            },
        }
    }

    /// Creates a new upload session for `(name, repo)` under a freshly
    /// generated token and returns the token. The triple made of the two
    /// names and the token is tracked afterwards.
    pub fn gen_uuid(&mut self, name: &str, repo: &str) -> (r: GenUuidResult)
        ensures
            final(self)@ == old(self)@.insert(triple(name@, repo@, r.uuid@)),
            final(self)@.contains(triple(name@, repo@, r.uuid@)),
    {
        let token = fresh_token();
        let uuid = token.clone();
        let layer = Layer { name: name.to_owned(), repo: repo.to_owned(), digest: token };
        let _ = self.register_session(layer);
        GenUuidResult { uuid }
    }

    /// Cancels an upload session: the registry entry is removed here; the
    /// caller independently attempts to delete the session's scratch file,
    /// best-effort and unreported, whatever is answered. Success reports
    /// only whether the registry entry was present.
    pub fn cancel_upload(&mut self, name: &str, repo: &str, digest: &str) -> (r: OpResult)
        ensures
            r.success == old(self)@.contains(triple(name@, repo@, digest@)),
            final(self)@ == old(self)@.remove(triple(name@, repo@, digest@)),
    {
        let was = self.remove_session(name, repo, digest);
        OpResult { success: was }
    }

    /// Deletes an upload session's registry entry and nothing else: no
    /// filesystem action accompanies it.
    pub fn delete_uuid(&mut self, name: &str, repo: &str, digest: &str) -> (r: OpResult)
        ensures
            r.success == old(self)@.contains(triple(name@, repo@, digest@)),
            final(self)@ == old(self)@.remove(triple(name@, repo@, digest@)),
    {
        let was = self.remove_session(name, repo, digest);
        OpResult { success: was }
    }

    /// Manifest upload is an unimplemented placeholder: it fails
    /// unconditionally.
    pub fn upload_manifest(&self, _manifest: &[u8]) -> (r: OpResult)
        ensures
            !r.success,
    {
        OpResult { success: false }
    }

    /// A point-in-time snapshot of the tokens of all tracked sessions:
    /// one entry per session, each the digest of a tracked key, and one
    /// for every tracked key.
    pub fn get_uuids(&self) -> (r: UuidList)
        ensures
            r.uuids@.len() == self@.len(),
            forall|i: int|
                0 <= i < r.uuids@.len() ==> #[trigger] active_token(self@, r.uuids@[i]@),
            forall|k: LayerKey| #![trigger self@.contains(k)]
                self@.contains(k) ==> exists|i: int|
                    0 <= i < r.uuids@.len() && (#[trigger] r.uuids@[i])@ == k.digest,
            (forall|k1: LayerKey, k2: LayerKey|
                #![trigger self@.contains(k1), self@.contains(k2)]
                self@.contains(k1) && self@.contains(k2) && k1.digest == k2.digest ==> k1
                    == k2) ==> r.uuids@.map_values(|t: String| t@).no_duplicates(),
    {
        proof {
            use_type_invariant(&*self);
        }
        let mut tokens: Vec<String> = Vec::new();
        let mut i: usize = 0;
        while i < self.uploads.len()
            invariant
                i <= self.uploads@.len(),
                tokens@.len() == i,
                forall|j: int| 0 <= j < i ==> tokens@[j]@ == self.uploads@[j].digest@,
            decreases self.uploads@.len() - i,
        {
            tokens.push(self.uploads[i].digest.clone());
            i = i + 1;
        }
        let r = UuidList { uuids: tokens };
        proof {
            self.keys().unique_seq_to_set();
            assert forall|i2: int|
                0 <= i2 < r.uuids@.len() implies #[trigger] active_token(self@, r.uuids@[i2]@) by {
                let k = self.keys()[i2];
                assert(self.keys().contains(k));
                assert(self@.contains(k) && k.digest == r.uuids@[i2]@);
            }
            assert forall|k: LayerKey| #![trigger self@.contains(k)]
                self@.contains(k) implies exists|i2: int|
                0 <= i2 < r.uuids@.len() && (#[trigger] r.uuids@[i2])@ == k.digest by {
                let j = choose|j: int| 0 <= j < self.keys().len() && self.keys()[j] == k;
                assert(0 <= j < r.uuids@.len() && r.uuids@[j]@ == k.digest);
            }
            if forall|k1: LayerKey, k2: LayerKey|
                #![trigger self@.contains(k1), self@.contains(k2)]
                self@.contains(k1) && self@.contains(k2) && k1.digest == k2.digest ==> k1 == k2 {
                let m = r.uuids@.map_values(|t: String| t@);
                assert forall|x: int, y: int|
                    0 <= x < m.len() && 0 <= y < m.len() && x != y implies m[x] != m[y] by {
                    assert(self.keys().contains(self.keys()[x]));
                    assert(self.keys().contains(self.keys()[y]));
                    assert(self@.contains(self.keys()[x]));
                    assert(self@.contains(self.keys()[y]));
                    assert(m[x] == self.keys()[x].digest);
                    assert(m[y] == self.keys()[y].digest);
                    assert(self.keys()[x] != self.keys()[y]);
                }
            }
        }
        r
    }
}

} // verus!
