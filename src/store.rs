use vstd::prelude::*;
use vstd::utf8::encode_utf8;
use crate::site::{files_view, SiteFile};

verus! {

/// The content hash of a byte string: what `seahash::hash` computes of it.
pub uninterp spec fn content_hash(b: Seq<u8>) -> u64;

/// Relies on `seahash::hash`: a 64-bit hash that depends on the bytes alone.
#[verifier::external_body]
fn hash_bytes(b: &[u8]) -> (r: u64)
    ensures
        r == content_hash(b@),
{
    seahash::hash(b)
}

/// Whether recording `hash` for `path` in the store `m` counts as a change.
pub open spec fn changes(m: Map<Seq<char>, u64>, path: Seq<char>, hash: u64) -> bool {
    !(m.contains_key(path) && m[path] == hash)
}

/// The store after writing `files` (site path, destination, contents) in
/// order, each keyed by its site path.
pub open spec fn replay(
    m: Map<Seq<char>, u64>,
    files: Seq<(Seq<char>, Seq<char>, Seq<char>)>,
) -> Map<Seq<char>, u64>
    decreases files.len(),
{
    if files.len() == 0 {
        m
    } else {
        replay(m, files.drop_last()).insert(
            files.last().0,
            content_hash(encode_utf8(files.last().2)),
        )
    }
}

/// Whether the `i`-th of `files` changes the store when they are written in
/// order.
pub open spec fn changed_at(
    m: Map<Seq<char>, u64>,
    files: Seq<(Seq<char>, Seq<char>, Seq<char>)>,
    i: int,
) -> bool {
    changes(replay(m, files.take(i)), files[i].0, content_hash(encode_utf8(files[i].2)))
}

/// The hashes of the outputs last written, by site-relative path. Persists
/// across build cycles, so that rewriting identical bytes is no change.
pub struct OutputStore {
    entries: Vec<(String, u64)>,
    model: Ghost<Map<Seq<char>, u64>>,
}

impl View for OutputStore {
    type V = Map<Seq<char>, u64>;

    closed spec fn view(&self) -> Map<Seq<char>, u64> {
        self.model@
    }
}

impl OutputStore {
    /// Each path has one entry, and the entries are exactly the model.
    pub closed spec fn wf(&self) -> bool {
        &&& forall|i: int, j: int|
            0 <= i < j < self.entries@.len() ==> self.entries@[i].0@ != self.entries@[j].0@
        &&& forall|i: int|
            0 <= i < self.entries@.len() ==> #[trigger] self.model@.contains_key(
                self.entries@[i].0@,
            ) && self.model@[self.entries@[i].0@] == self.entries@[i].1
        &&& forall|k: Seq<char>| #[trigger]
            self.model@.contains_key(k) ==> exists|i: int|
                0 <= i < self.entries@.len() && self.entries@[i].0@ == k
    }

    pub fn new() -> (r: OutputStore)
        ensures
            r.wf(),
            r@ == Map::<Seq<char>, u64>::empty(),
    {
        OutputStore { entries: Vec::new(), model: Ghost(Map::empty()) }
    }

    fn find(&self, path: &String) -> (r: Option<usize>)
        requires
            self.wf(),
        ensures
            match r {
                Option::Some(i) => i < self.entries@.len() && self.entries@[i as int].0@ == path@,
                Option::None => !self@.contains_key(path@),
            },
    {
        let mut i: usize = 0;
        while i < self.entries.len()
            invariant
                self.wf(),
                i <= self.entries@.len(),
                forall|j: int| 0 <= j < i ==> self.entries@[j].0@ != path@,
            decreases self.entries.len() - i,
        {
            if self.entries[i].0 == *path {
                return Option::Some(i);
            }
            i = i + 1;
        }
        Option::None
    }

    /// The hash last recorded for `path`.
    pub fn stored_hash(&self, path: &String) -> (r: Option<u64>)
        requires
            self.wf(),
        ensures
            r == (if self@.contains_key(path@) {
                Option::Some(self@[path@])
            } else {
                Option::None
            }),
    {
        match self.find(path) {
            Option::Some(i) => Option::Some(self.entries[i].1),
            Option::None => Option::None,
        }
    }

    /// Records `hash` for `path`; returns whether it differs from what was
    /// recorded before (a path never seen counts as changed).
    pub fn record(&mut self, path: &String, hash: u64) -> (changed: bool)
        requires
            old(self).wf(),
        ensures
            final(self).wf(),
            changed == changes(old(self)@, path@, hash),
            final(self)@ == old(self)@.insert(path@, hash),
    {
        let ghost m0 = self.model@;
        match self.find(path) {
            Option::Some(i) => {
                let same = self.entries[i].1 == hash;
                assert(old(self).model@.contains_key(old(self).entries@[i as int].0@));
                self.entries.set(i, (path.clone(), hash));
                self.model = Ghost(m0.insert(path@, hash));
                proof {
                    assert forall|a: int|
                        0 <= a < self.entries@.len() && a != i implies self.entries@[a]
                            == old(self).entries@[a] && old(self).entries@[a].0@ != path@ by {
                        assert(old(self).entries@[i as int].0@ == path@);
                    }
                    assert forall|a: int|
                        0 <= a < self.entries@.len() implies #[trigger] self.model@.contains_key(
                            self.entries@[a].0@,
                        ) && self.model@[self.entries@[a].0@] == self.entries@[a].1 by {
                        if a != i {
                            assert(old(self).model@.contains_key(old(self).entries@[a].0@));
                        }
                    }
                    assert forall|k: Seq<char>| #[trigger]
                        self.model@.contains_key(k) implies exists|j: int|
                            0 <= j < self.entries@.len() && self.entries@[j].0@ == k by {
                        if k != path@ {
                            let j = choose|j: int|
                                0 <= j < old(self).entries@.len() && old(self).entries@[j].0@ == k;
                            assert(self.entries@[j].0@ == k);
                        } else {
                            assert(self.entries@[i as int].0@ == k);
                        }
                    }
                }
                !same
            },
            Option::None => {
                self.entries.push((path.clone(), hash));
                self.model = Ghost(m0.insert(path@, hash));
                proof {
                    let n = old(self).entries@.len();
                    assert forall|k: Seq<char>| #[trigger]
                        self.model@.contains_key(k) implies exists|j: int|
                            0 <= j < self.entries@.len() && self.entries@[j].0@ == k by {
                        if k != path@ {
                            let j = choose|j: int|
                                0 <= j < old(self).entries@.len() && old(self).entries@[j].0@ == k;
                            assert(self.entries@[j].0@ == k);
                        } else {
                            assert(self.entries@[n as int].0@ == k);
                        }
                    }
                    assert forall|a: int|
                        0 <= a < n implies self.entries@[a].0@ != path@ by {
                        assert(old(self).model@.contains_key(old(self).entries@[a].0@));
                    }
                }
                true
            },
        }
    }

    /// The Output Store's write: records the hash of `bytes` for `path` and
    /// returns whether the file has to be written, that is whether the
    /// hash differs from the one recorded before.
    pub fn updated_with(&mut self, path: &String, bytes: &[u8]) -> (changed: bool)
        requires
            old(self).wf(),
        ensures
            final(self).wf(),
            changed == changes(old(self)@, path@, content_hash(bytes@)),
            final(self)@ == old(self)@.insert(path@, content_hash(bytes@)),
    {
        let h = hash_bytes(bytes);
        self.record(path, h)
    }

    /// For a file that an outside tool wrote: compares the hash of its
    /// `bytes` as they are on disk with the one recorded, and records it.
    pub fn did_external_file_change(&mut self, path: &String, bytes: &[u8]) -> (changed: bool)
        requires
            old(self).wf(),
        ensures
            final(self).wf(),
            changed == changes(old(self)@, path@, content_hash(bytes@)),
            final(self)@ == old(self)@.insert(path@, content_hash(bytes@)),
    {
        let h = hash_bytes(bytes);
        self.record(path, h)
    }

    /// Writes `files` in order through the store: `flags[i]` says whether
    /// the `i`-th file has to be written, and `any` whether one has.
    pub fn updated_all(&mut self, files: &Vec<SiteFile>) -> (r: (Vec<bool>, bool))
        requires
            old(self).wf(),
        ensures
            final(self).wf(),
            final(self)@ == replay(old(self)@, files_view(files@)),
            r.0@.len() == files@.len(),
            forall|i: int|
                0 <= i < files@.len() ==> r.0@[i] == changed_at(old(self)@, files_view(files@), i),
            r.1 == exists|i: int| 0 <= i < files@.len() && r.0@[i],
    {
        let ghost m0 = self@;
        let ghost fv = files_view(files@);
        let mut flags: Vec<bool> = Vec::new();
        let mut any = false;
        let mut i: usize = 0;
        while i < files.len()
            invariant
                self.wf(),
                fv == files_view(files@),
                i <= files@.len(),
                self@ == replay(m0, fv.take(i as int)),
                flags@.len() == i,
                forall|j: int| 0 <= j < i ==> flags@[j] == changed_at(m0, fv, j),
                any == exists|j: int| 0 <= j < i && flags@[j],
            decreases files.len() - i,
        {
            let f = &files[i];
            let changed = self.updated_with(&f.site, f.contents.as_str().as_bytes());
            assert(fv.take(i + 1).drop_last() =~= fv.take(i as int));
            assert(fv[i as int] == (f.site@, f.dest@, f.contents@));
            let ghost old_flags = flags@;
            flags.push(changed);
            proof {
                assert forall|j: int| 0 <= j < i implies flags@[j] == old_flags[j] by {}
                if changed {
                    assert(flags@[i as int]);
                }
                if any {
                    let j = choose|j: int| 0 <= j < i && old_flags[j];
                    assert(flags@[j]);
                }
                if exists|j: int| 0 <= j < i + 1 && flags@[j] {
                    let j = choose|j: int| 0 <= j < i + 1 && flags@[j];
                    if j < i {
                        assert(old_flags[j]);
                    }
                }
            }
            any = any || changed;
            i = i + 1;
        }
        assert(fv.take(files@.len() as int) =~= fv);
        (flags, any)
    }
}

} // verus!
