//! The content-addressed store: texts keyed by the hash of what they hold.

use crate::error::Error;
use crate::hash::{sha512_hash, text_digest, HASH_LENGTH};
use crate::util::bytes_eq;
use vstd::prelude::*;

verus! {

/// The texts of a store after `text` was put into it: as before where its
/// hash is taken, else with `text` under its hash.
pub open spec fn stored(texts: Map<Seq<u8>, Seq<char>>, text: Seq<char>) -> Map<
    Seq<u8>,
    Seq<char>,
> {
    if texts.contains_key(text_digest(text)) {
        texts
    } else {
        texts.insert(text_digest(text), text)
    }
}

/// The texts of a store after `text`, if there is one, was put into it.
pub open spec fn stored_opt(texts: Map<Seq<u8>, Seq<char>>, text: Option<Seq<char>>) -> Map<
    Seq<u8>,
    Seq<char>,
> {
    match text {
        Some(text) => stored(texts, text),
        None => texts,
    }
}

/// One stored text with the hash that addresses it.
struct Blob {
    hash: Vec<u8>,
    text: String,
}

/// Maps the hash of a text to the text. A text is never changed or removed
/// once stored, and storing it again changes nothing.
pub struct ContentStore {
    blobs: Vec<Blob>,
}

impl ContentStore {
    spec fn holds_at(self, i: int, hash: Seq<u8>) -> bool {
        0 <= i < self.blobs@.len() && self.blobs@[i].hash@ == hash
    }

    /// Every blob sits under the digest of its text, and no hash occurs twice.
    pub closed spec fn wf(self) -> bool {
        &&& forall|i: int|
            0 <= i < self.blobs@.len() ==> #[trigger] self.blobs@[i].hash@ == text_digest(
                self.blobs@[i].text@,
            )
        &&& forall|i: int, j: int|
            0 <= i < j < self.blobs@.len() ==> #[trigger] self.blobs@[i].hash@
                != #[trigger] self.blobs@[j].hash@
    }

    /// How many texts the store holds.
    pub closed spec fn count(self) -> nat {
        self.blobs@.len()
    }

    proof fn lemma_view_at(self, i: int)
        requires
            self.wf(),
            0 <= i < self.blobs@.len(),
        ensures
            self@.contains_key(self.blobs@[i].hash@),
            self@[self.blobs@[i].hash@] == self.blobs@[i].text@,
    {
        let h = self.blobs@[i].hash@;
        assert(self.holds_at(i, h));
        let k = choose|k: int| self.holds_at(k, h);
        assert(self.holds_at(k, h));
        if k < i {
            assert(self.blobs@[k].hash@ != self.blobs@[i].hash@);
        } else if i < k {
            assert(self.blobs@[i].hash@ != self.blobs@[k].hash@);
        }
    }

    /// A store that holds nothing.
    pub fn new() -> (store: ContentStore)
        ensures
            store.wf(),
            store@ == Map::<Seq<u8>, Seq<char>>::empty(),
            store.count() == 0,
    {
        let store = ContentStore { blobs: Vec::new() };
        assert(store@ =~= Map::<Seq<u8>, Seq<char>>::empty());
        store
    }

    fn find(&self, hash: &Vec<u8>) -> (r: Option<usize>)
        requires
            self.wf(),
        ensures
            match r {
                Some(i) => self.holds_at(i as int, hash@),
                None => !self@.contains_key(hash@),
            },
    {
        let mut i: usize = 0;
        while i < self.blobs.len()
            invariant
                i <= self.blobs.len(),
                forall|j: int| 0 <= j < i ==> !self.holds_at(j, hash@),
            decreases self.blobs.len() - i,
        {
            if bytes_eq(&self.blobs[i].hash, hash) {
                return Some(i);
            }
            i += 1;
        }
        None
    }

    /// Stores `text` and returns its hash. Where the store holds a text under
    /// that hash already, nothing is written.
    pub fn put(&mut self, text: String) -> (hash: Vec<u8>)
        requires
            old(self).wf(),
        ensures
            final(self).wf(),
            hash@ == text_digest(text@),
            hash@.len() == HASH_LENGTH,
            final(self)@ == stored(old(self)@, text@),
            final(self).count() == if old(self)@.contains_key(hash@) {
                old(self).count()
            } else {
                old(self).count() + 1
            },
    {
        let hash = sha512_hash(&text);
        match self.find(&hash) {
            Some(i) => {
                proof {
                    self.lemma_view_at(i as int);
                }
            },
            None => {
                let ghost before = *self;
                let copy = crate::util::clone_bytes(&hash);
                self.blobs.push(Blob { hash: copy, text });
                proof {
                    let n = before.blobs@.len() as int;
                    assert forall|i: int, j: int| 0 <= i < j < self.blobs@.len() implies (
                    #[trigger] self.blobs@[i].hash@) != (#[trigger] self.blobs@[j].hash@) by {
                        if j == n {
                            assert(before.holds_at(i, hash@) == (before.blobs@[i].hash@ == hash@));
                            if self.blobs@[i].hash@ == hash@ {
                                assert(before.holds_at(i, hash@));
                            }
                        } else {
                            assert(before.blobs@[i].hash@ != before.blobs@[j].hash@);
                        }
                    }
                    assert(self.wf());
                    assert forall|h: Seq<u8>| self@.contains_key(h) <==> before@.insert(
                        hash@,
                        text@,
                    ).contains_key(h) by {
                        if before@.contains_key(h) {
                            let k = choose|k: int| before.holds_at(k, h);
                            assert(self.holds_at(k, h));
                        }
                        if h == hash@ {
                            assert(self.holds_at(n, h));
                        }
                        if self@.contains_key(h) {
                            let k = choose|k: int| self.holds_at(k, h);
                            if k < n {
                                assert(before.holds_at(k, h));
                            }
                        }
                    }
                    assert forall|h: Seq<u8>| self@.contains_key(h) implies self@[h]
                        == before@.insert(hash@, text@)[h] by {
                        let k = choose|k: int| self.holds_at(k, h);
                        self.lemma_view_at(k);
                        if k < n {
                            assert(before.holds_at(k, h));
                            before.lemma_view_at(k);
                        }
                    }
                    assert(self@ =~= before@.insert(hash@, text@));
                }
            },
        }
        hash
    }

    /// Whether a text is stored under `hash`.
    pub fn contains(&self, hash: &Vec<u8>) -> (r: bool)
        requires
            self.wf(),
        ensures
            r == self@.contains_key(hash@),
    {
        match self.find(hash) {
            Some(i) => {
                proof {
                    self.lemma_view_at(i as int);
                }
                true
            },
            None => false,
        }
    }

    /// The text stored under `hash`.
    pub fn get(&self, hash: &Vec<u8>) -> (r: Result<String, Error>)
        requires
            self.wf(),
        ensures
            self@.contains_key(hash@) ==> r is Ok && r->Ok_0@ == self@[hash@],
            !self@.contains_key(hash@) ==> r == Err::<String, Error>(Error::NotFound),
    {
        match self.find(hash) {
            Some(i) => {
                proof {
                    self.lemma_view_at(i as int);
                }
                Ok(self.blobs[i].text.clone())
            },
            None => Err(Error::NotFound),
        }
    }

    /// How many texts the store holds.
    pub fn len(&self) -> (n: usize)
        ensures
            n == self.count(),
    {
        self.blobs.len()
    }
}

impl View for ContentStore {
    type V = Map<Seq<u8>, Seq<char>>;

    /// The texts by hash.
    closed spec fn view(&self) -> Map<Seq<u8>, Seq<char>> {
        Map::new(
            |h: Seq<u8>| exists|i: int| self.holds_at(i, h),
            |h: Seq<u8>| self.blobs@[choose|i: int| self.holds_at(i, h)].text@,
        )
    }
}

/// Every stored text is found under the digest of its own content.
pub proof fn lemma_content_addressed(store: ContentStore, hash: Seq<u8>)
    requires
        store.wf(),
        store@.contains_key(hash),
    ensures
        text_digest(store@[hash]) == hash,
{
    let k = choose|k: int| store.holds_at(k, hash);
    store.lemma_view_at(k);
}

/// Putting the same text twice gives the same hash, and the second put
/// leaves the store as the first one left it.
pub proof fn lemma_put_idempotent(texts: Map<Seq<u8>, Seq<char>>, text: Seq<char>)
    ensures
        stored(stored(texts, text), text) == stored(texts, text),
        stored(texts, text).contains_key(text_digest(text)),
{
}

/// A put neither changes nor removes a text that is stored.
pub proof fn lemma_put_keeps_texts(
    texts: Map<Seq<u8>, Seq<char>>,
    text: Seq<char>,
    hash: Seq<u8>,
)
    requires
        texts.contains_key(hash),
    ensures
        stored(texts, text).contains_key(hash),
        stored(texts, text)[hash] == texts[hash],
{
}

} // verus!
