//! The resolver's mapping from a public key to the homeserver URL found for it.
use vstd::prelude::*;

use crate::text::same_text;

verus! {

/// Public key text to homeserver URL, filled on resolution and on publication and
/// never evicted.
pub struct ResolverCache {
    keys: Vec<String>,
    urls: Vec<String>,
    map: Ghost<Map<Seq<char>, Seq<char>>>,
}

impl View for ResolverCache {
    type V = Map<Seq<char>, Seq<char>>;

    closed spec fn view(&self) -> Map<Seq<char>, Seq<char>> {
        self.map@
    }
}

impl ResolverCache {
    /// Each key is stored once, beside the URL that the view maps it to.
    pub closed spec fn wf(&self) -> bool {
        &&& self.keys@.len() == self.urls@.len()
        &&& forall|i: int|
            0 <= i < self.keys@.len() ==> #[trigger] self.map@.contains_key(self.keys@[i]@)
                && self.map@[self.keys@[i]@] == self.urls@[i]@
        &&& forall|k: Seq<char>|
            #[trigger] self.map@.contains_key(k) ==> exists|i: int|
                0 <= i < self.keys@.len() && #[trigger] self.keys@[i]@ == k
        &&& forall|i: int, j: int|
            0 <= i < self.keys@.len() && 0 <= j < self.keys@.len() && #[trigger] self.keys@[i]@
                == #[trigger] self.keys@[j]@ ==> i == j
    }

    /// An empty cache.
    pub fn new() -> (r: ResolverCache)
        ensures
            r.wf(),
            r@ == Map::<Seq<char>, Seq<char>>::empty(),
    {
        ResolverCache { keys: Vec::new(), urls: Vec::new(), map: Ghost(Map::empty()) }
    }

    fn position(&self, key: &str) -> (r: Option<usize>)
        requires
            self.wf(),
        ensures
            match r {
                Some(i) => i < self.keys@.len() && self.keys@[i as int]@ == key@,
                None => !self@.contains_key(key@),
            },
    {
        let mut i: usize = 0;
        while i < self.keys.len()
            invariant
                i <= self.keys@.len(),
                forall|j: int| 0 <= j < i ==> self.keys@[j]@ != key@,
            decreases self.keys@.len() - i,
        {
            if same_text(self.keys[i].as_str(), key) {
                return Some(i);
            }
            i = i + 1;
        }
        None
    }

    /// The URL stored for `key`.
    pub fn get(&self, key: &str) -> (r: Option<String>)
        requires
            self.wf(),
        ensures
            match r {
                Some(u) => self@.contains_key(key@) && self@[key@] == u@,
                None => !self@.contains_key(key@),
            },
    {
        match self.position(key) {
            Some(i) => {
                assert(self.map@.contains_key(self.keys@[i as int]@));
                Some(self.urls[i].clone())
            },
            None => None,
        }
    }

    /// Stores `url` for `key`, replacing what was stored for it.
    pub fn insert(&mut self, key: String, url: String)
        requires
            old(self).wf(),
        ensures
            final(self).wf(),
            final(self)@ == old(self)@.insert(key@, url@),
    {
        let ghost old_map = self.map@;
        let ghost new_map = old_map.insert(key@, url@);
        match self.position(key.as_str()) {
            Some(i) => {
                self.urls.set(i, url);
                self.map = Ghost(new_map);
                assert forall|k: Seq<char>| #[trigger] new_map.contains_key(k) implies exists|
                    j: int,
                | 0 <= j < self.keys@.len() && #[trigger] self.keys@[j]@ == k by {
                    if k != key@ {
                        assert(old_map.contains_key(k));
                    }
                }
            },
            None => {
                let ghost n = self.keys@.len() as int;
                self.keys.push(key);
                self.urls.push(url);
                self.map = Ghost(new_map);
                assert(self.keys@[n]@ == key@);
                assert forall|k: Seq<char>| #[trigger] new_map.contains_key(k) implies exists|
                    j: int,
                | 0 <= j < self.keys@.len() && #[trigger] self.keys@[j]@ == k by {
                    if k != key@ {
                        assert(old_map.contains_key(k));
                        let j = choose|j: int| 0 <= j < n && #[trigger] old(self).keys@[j]@ == k;
                        assert(self.keys@[j]@ == k);
                    }
                }
            },
        }
    }
}

} // verus!
