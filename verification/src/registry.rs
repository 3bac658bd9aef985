//! The registry of native tokens: for each currency key, the location of the
//! chain that holds the token's reserve.

use vstd::prelude::*;
use crate::location::{same_bytes, JunctionView, MultiLocation};

verus! {

/// One registered token.
struct Entry {
    key: Vec<u8>,
    reserve: MultiLocation,
}

/// Whether the entry at `i` is the one registered under `key`.
spec fn holds_at(entries: Seq<Entry>, i: int, key: Seq<u8>) -> bool {
    0 <= i < entries.len() && entries[i].key@ == key
}

/// No key stands in two entries.
spec fn unique(entries: Seq<Entry>) -> bool {
    forall|i: int, j: int|
        #[trigger] holds_at(entries, i, entries[j].key@) && 0 <= j < entries.len() ==> i == j
}

/// The map that the entries spell.
spec fn lookup(entries: Seq<Entry>) -> Map<Seq<u8>, Seq<JunctionView>> {
    Map::new(
        |key: Seq<u8>| exists|i: int| holds_at(entries, i, key),
        |key: Seq<u8>| entries[choose|i: int| holds_at(entries, i, key)].reserve@,
    )
}

/// An entry is found under its key.
proof fn lemma_lookup(entries: Seq<Entry>, i: int, key: Seq<u8>)
    requires
        unique(entries),
        holds_at(entries, i, key),
    ensures
        lookup(entries).contains_key(key),
        lookup(entries)[key] == entries[i].reserve@,
{
    let chosen = choose|j: int| holds_at(entries, j, key);
    assert(holds_at(entries, chosen, entries[i].key@));
}

/// Taking out the entry of a key, if there is one, and appending a fresh entry
/// for it spells the map with that key set anew.
proof fn lemma_insert(before: Seq<Entry>, after: Seq<Entry>, at: Option<int>, fresh: Entry)
    requires
        unique(before),
        match at {
            Some(i) => holds_at(before, i, fresh.key@) && after == before.remove(i).push(fresh),
            None => (forall|j: int| !holds_at(before, j, fresh.key@)) && after == before.push(
                fresh,
            ),
        },
    ensures
        unique(after),
        lookup(after) == lookup(before).insert(fresh.key@, fresh.reserve@),
{
    let kept = match at {
        Some(i) => before.remove(i),
        None => before,
    };
    let origin = |j: int|
        match at {
            Some(i) => if j < i { j } else { j + 1 },
            None => j,
        };
    let last = kept.len() as int;
    assert(after == kept.push(fresh));
    assert forall|j: int| 0 <= j < kept.len() implies kept[j] == before[origin(j)] && 0 <= origin(j)
        < before.len() && kept[j].key@ != fresh.key@ by {
        if at is Some {
            assert(holds_at(before, origin(j), before[origin(j)].key@));
            assert(holds_at(before, at->Some_0, before[at->Some_0].key@));
        } else {
            assert(!holds_at(before, j, fresh.key@));
        }
    }
    assert forall|i: int, j: int|
        #[trigger] holds_at(after, i, after[j].key@) && 0 <= j < after.len() implies i == j by {
        if i < last && j < last {
            assert(holds_at(before, origin(i), before[origin(j)].key@));
        }
    }
    assert forall|key: Seq<u8>|
        lookup(after).contains_key(key) <==> #[trigger] lookup(before).insert(
            fresh.key@,
            fresh.reserve@,
        ).contains_key(key) by {
        if lookup(after).contains_key(key) {
            let j = choose|j: int| holds_at(after, j, key);
            if j < last {
                assert(holds_at(before, origin(j), key));
            }
        }
        if key != fresh.key@ && lookup(before).contains_key(key) {
            let j = choose|j: int| holds_at(before, j, key);
            match at {
                Some(i) => {
                    let moved = if j < i { j } else { j - 1 };
                    assert(holds_at(after, moved, key));
                },
                None => {
                    assert(holds_at(after, j, key));
                },
            }
        }
        if key == fresh.key@ {
            assert(holds_at(after, last, key));
        }
    }
    assert forall|key: Seq<u8>| #[trigger] lookup(after).contains_key(key) implies lookup(
        after,
    )[key] == lookup(before).insert(fresh.key@, fresh.reserve@)[key] by {
        let j = choose|j: int| holds_at(after, j, key);
        lemma_lookup(after, j, key);
        if j < last {
            assert(holds_at(before, origin(j), key));
            lemma_lookup(before, origin(j), key);
        }
    }
    assert(lookup(after) =~= lookup(before).insert(fresh.key@, fresh.reserve@));
}

/// A map from currency keys to reserve locations. No key is registered twice,
/// and a key is found by exact match.
pub struct NativeTokenRegistry {
    entries: Vec<Entry>,
}

impl View for NativeTokenRegistry {
    type V = Map<Seq<u8>, Seq<JunctionView>>;

    closed spec fn view(&self) -> Map<Seq<u8>, Seq<JunctionView>> {
        lookup(self.entries@)
    }
}

impl NativeTokenRegistry {
    #[verifier::type_invariant]
    spec fn keys_are_unique(&self) -> bool {
        unique(self.entries@)
    }

    /// A registry without entries.
    pub fn new() -> (registry: Self)
        ensures
            registry@ == Map::<Seq<u8>, Seq<JunctionView>>::empty(),
    {
        let registry = NativeTokenRegistry { entries: Vec::new() };
        assert(registry@ =~= Map::<Seq<u8>, Seq<JunctionView>>::empty());
        registry
    }

    /// Where `key` stands among the entries, if it is registered.
    fn position(&self, key: &Vec<u8>) -> (at: Option<usize>)
        ensures
            match at {
                Some(i) => holds_at(self.entries@, i as int, key@),
                None => forall|i: int| !holds_at(self.entries@, i, key@),
            },
    {
        let mut i: usize = 0;
        while i < self.entries.len()
            invariant
                i <= self.entries@.len(),
                forall|j: int| 0 <= j < i ==> !holds_at(self.entries@, j, key@),
            decreases self.entries@.len() - i,
        {
            if same_bytes(&self.entries[i].key, key) {
                return Some(i);
            }
            i += 1;
        }
        None
    }

    /// Whether `key` is registered.
    pub fn contains_key(&self, key: &Vec<u8>) -> (found: bool)
        ensures
            found == self@.contains_key(key@),
    {
        self.position(key).is_some()
    }

    /// The reserve location registered under `key`, if there is one.
    pub fn get(&self, key: &Vec<u8>) -> (reserve: Option<&MultiLocation>)
        ensures
            match reserve {
                Some(reserve) => self@.contains_key(key@) && reserve@ == self@[key@],
                None => !self@.contains_key(key@),
            },
    {
        proof {
            use_type_invariant(self);
        }
        match self.position(key) {
            Some(i) => {
                proof {
                    lemma_lookup(self.entries@, i as int, key@);
                }
                Some(&self.entries[i].reserve)
            },
            None => None,
        }
    }

    /// Registers `reserve` under `key` and returns the location that was
    /// registered under it before, if there was one.
    pub fn insert(&mut self, key: Vec<u8>, reserve: MultiLocation) -> (before: Option<MultiLocation>)
        ensures
            final(self)@ == old(self)@.insert(key@, reserve@),
            match before {
                Some(before) => old(self)@.contains_key(key@) && before@ == old(self)@[key@],
                None => !old(self)@.contains_key(key@),
            },
    {
        proof {
            use_type_invariant(&*self);
        }
        let ghost before = self.entries@;
        let at = self.position(&key);
        let ghost fresh = Entry { key, reserve };
        let mut entries: Vec<Entry> = Vec::new();
        std::mem::swap(&mut self.entries, &mut entries);
        let replaced = match at {
            Some(i) => {
                proof {
                    lemma_lookup(before, i as int, key@);
                }
                Some(entries.remove(i).reserve)
            },
            None => None,
        };
        entries.push(Entry { key, reserve });
        proof {
            let ghost_at = match at {
                Some(i) => Some(i as int),
                None => None,
            };
            lemma_insert(before, entries@, ghost_at, fresh);
        }
        std::mem::swap(&mut self.entries, &mut entries);
        replaced
    }
}

} // verus!
