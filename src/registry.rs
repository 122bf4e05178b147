use vstd::prelude::*;

use crate::desc::{DescModel, FontDesc};
use crate::scale::FaceMetrics;

verus! {

/// Handle of a face loaded by one registry: the registry's id and the
/// position of the face in it. A registry mints keys in order and never
/// reuses one; only a key it issued names a face there.
#[derive(Clone, Copy, Debug, PartialEq, Eq, Hash, Structural)]
pub struct FontKey {
    pub registry: u64,
    pub token: usize,
}

/// A loaded face, the descriptor it was loaded for, and its design metrics.
pub struct FaceEntry<F> {
    pub desc: FontDesc,
    pub face: F,
    pub design: FaceMetrics,
}

/// Position of the last entry loaded for a descriptor equal to `d`.
pub open spec fn find_desc<F>(entries: Seq<FaceEntry<F>>, d: DescModel) -> Option<int>
    decreases entries.len(),
{
    if entries.len() == 0 {
        None
    } else if entries.last().desc@ == d {
        Some(entries.len() - 1)
    } else {
        find_desc(entries.drop_last(), d)
    }
}

/// The key cached for descriptor `d` in the registry `id`, if any.
pub open spec fn key_in<F>(id: u64, entries: Seq<FaceEntry<F>>, d: DescModel) -> Option<FontKey> {
    match find_desc(entries, d) {
        Some(i) => Some(FontKey { registry: id, token: i as usize }),
        None => None,
    }
}

pub proof fn lemma_find_desc_in_range<F>(entries: Seq<FaceEntry<F>>, d: DescModel)
    ensures
        find_desc(entries, d) matches Some(i) ==> 0 <= i < entries.len() && entries[i].desc@ == d,
    decreases entries.len(),
{
    if entries.len() > 0 && entries.last().desc@ != d {
        lemma_find_desc_in_range(entries.drop_last(), d);
    }
}

/// Owns the loaded faces, keyed by the position at which each was loaded, and
/// memoises descriptor resolution. Entries are only ever appended.
pub struct FaceRegistry<F> {
    id: u64,
    entries: Vec<FaceEntry<F>>,
}

impl<F> FaceRegistry<F> {
    /// The loaded faces; the key of the face at position `i` has token `i`.
    pub closed spec fn entries(&self) -> Seq<FaceEntry<F>> {
        self.entries@
    }

    /// The id stamped on every key this registry issues.
    pub closed spec fn id(&self) -> u64 {
        self.id
    }

    /// Whether `key` was issued by this registry.
    pub open spec fn issued(&self, key: FontKey) -> bool {
        key.registry == self.id() && key.token < self.entries().len()
    }

    /// An empty registry whose keys carry `id`. Registries that live at the
    /// same time are to be given distinct ids, so that none accepts a key of
    /// another.
    pub fn new(id: u64) -> (r: FaceRegistry<F>)
        ensures
            r.entries() == Seq::<FaceEntry<F>>::empty(),
            r.id() == id,
    {
        FaceRegistry { id, entries: Vec::new() }
    }

    pub fn len(&self) -> (r: usize)
        ensures
            r == self.entries().len(),
    {
        self.entries.len()
    }

    /// The key cached for `desc`; no side effect.
    pub fn lookup_by_descriptor(&self, desc: &FontDesc) -> (r: Option<FontKey>)
        ensures
            r == key_in(self.id(), self.entries(), desc@),
    {
        let mut i: usize = self.entries.len();
        assert(self.entries@.take(i as int) =~= self.entries@);
        while i > 0
            invariant
                i <= self.entries@.len(),
                find_desc(self.entries@.take(i as int), desc@) == find_desc(self.entries@, desc@),
            decreases i,
        {
            let ghost prefix = self.entries@.take(i as int);
            assert(prefix.drop_last() =~= self.entries@.take(i - 1));
            if self.entries[i - 1].desc.same(desc) {
                return Some(FontKey { registry: self.id, token: i - 1 });
            }
            i = i - 1;
        }
        assert(self.entries@.take(0) =~= Seq::<FaceEntry<F>>::empty());
        None
    }

    /// Stores `face` under a fresh key, records `desc` as resolving to it, and
    /// returns the key. Both happen in the one append.
    pub fn insert(&mut self, desc: FontDesc, face: F, design: FaceMetrics) -> (r: FontKey)
        ensures
            r == (FontKey { registry: old(self).id(), token: old(self).entries().len() as usize }),
            final(self).id() == old(self).id(),
            final(self).entries() == old(self).entries().push(FaceEntry { desc, face, design }),
    {
        let token = self.entries.len();
        self.entries.push(FaceEntry { desc, face, design });
        FontKey { registry: self.id, token }
    }

    /// The entry stored under `key`; none for a key this registry never issued.
    pub fn get_entry(&self, key: FontKey) -> (r: Option<&FaceEntry<F>>)
        ensures
            self.issued(key) <==> r.is_some(),
            r matches Some(e) ==> *e == self.entries()[key.token as int],
    {
        if key.registry == self.id && key.token < self.entries.len() {
            Some(&self.entries[key.token])
        } else {
            None
        }
    }

    /// The face stored under `key`; none for a key this registry never issued.
    pub fn get_face(&self, key: FontKey) -> (r: Option<&F>)
        ensures
            self.issued(key) <==> r.is_some(),
            r matches Some(f) ==> *f == self.entries()[key.token as int].face,
    {
        match self.get_entry(key) {
            Some(e) => Some(&e.face),
            None => None,
        }
    }
}

} // verus!
