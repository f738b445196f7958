//! The roster itself: six characters in a slab, indexed by their ids.

use vstd::prelude::*;
use vstd::hash_map::StringHashMap;
use slab::Slab;
use crate::character::{Element, NarutoChar, Profile, Village};
use crate::table::{slab_get, slab_index_mut, slab_insert, slab_iter, slab_new, slab_slots};

verus! {

/// The roster of characters, the keys of its three heroes, and an index from
/// id to key.
pub struct NarutoShippuden {
    naruto: usize,
    gara: usize,
    pain: usize,
    chars: Slab<NarutoChar>,
    chars_by_id: StringHashMap<usize>,
}

/// The six characters that [`NarutoShippuden::new`] enrols, in key order.
pub open spec fn roster() -> Seq<Profile> {
    seq![
        Profile {
            id: "1000"@,
            name: "Naruto Uzumaki"@,
            friends: seq![1usize, 2usize, 3usize],
            village: Village::Konoha,
            elements: seq![Element::Wind],
        },
        Profile {
            id: "1001"@,
            name: "Sasuke Uchiha"@,
            friends: seq![0usize, 2usize, 3usize],
            village: Village::Konoha,
            elements: seq![Element::Lightning],
        },
        Profile {
            id: "1002"@,
            name: "Sakura Haruno"@,
            friends: seq![0usize, 1usize, 3usize],
            village: Village::Konoha,
            elements: seq![Element::Earth],
        },
        Profile {
            id: "1003"@,
            name: "Kakashi Hatake"@,
            friends: seq![0usize, 1usize, 2usize],
            village: Village::Konoha,
            elements: seq![Element::Lightning],
        },
        Profile {
            id: "1004"@,
            name: "Gara"@,
            friends: seq![0usize],
            village: Village::Suna,
            elements: seq![Element::Wind, Element::Earth],
        },
        Profile {
            id: "1005"@,
            name: "Pain"@,
            friends: seq![0usize],
            village: Village::Ame,
            elements: seq![Element::Wind, Element::Water],
        },
    ]
}

/// The keys among `keys` that a roster of `count` characters knows, in the
/// order in which `keys` holds them.
pub open spec fn enrolled_keys(keys: Seq<usize>, count: nat) -> Seq<usize> {
    keys.filter(|key: usize| key < count)
}

/// The values of a slab without vacant slots, in key order.
spec fn occupants(slots: Seq<Option<NarutoChar>>) -> Seq<NarutoChar> {
    Seq::new(slots.len(), |k: int| slots[k].unwrap())
}

/// Every friend that a character of `chars` names is a key of `chars`.
spec fn friends_enrolled(chars: Seq<NarutoChar>) -> bool {
    forall|k: int, i: int|
        0 <= k < chars.len() && 0 <= i < chars[k].friends@.len() ==> (#[trigger] chars[k].friends@[i])
            < chars.len()
}

/// `index` leads from each id in `chars` to the key of the one character
/// that carries it, and holds nothing else.
spec fn indexes(index: Map<Seq<char>, usize>, chars: Seq<NarutoChar>) -> bool {
    &&& forall|k: int| 0 <= k < chars.len() ==> index.contains_key(#[trigger] chars[k].id@)
    &&& forall|k: int| 0 <= k < chars.len() ==> index[#[trigger] chars[k].id@] == k
    &&& forall|id: Seq<char>| #[trigger]
        index.contains_key(id) ==> index[id] < chars.len() && chars[index[id] as int].id@ == id
}

/// `entries` is what walking `slots` in key order finds: each occupied slot
/// once, under its key.
spec fn walks(entries: Seq<(usize, &NarutoChar)>, slots: Seq<Option<NarutoChar>>) -> bool {
    &&& forall|i: int|
        0 <= i < entries.len() ==> (#[trigger] entries[i]).0 < slots.len() && slots[entries[i].0 as int]
            == Some(*entries[i].1)
    &&& forall|i: int, j: int|
        0 <= i < j < entries.len() ==> (#[trigger] entries[i]).0 < (#[trigger] entries[j]).0
    &&& forall|k: int|
        0 <= k < slots.len() && (#[trigger] slots[k]).is_some() ==> exists|i: int|
            0 <= i < entries.len() && (#[trigger] entries[i]).0 == k
}

/// Keys that grow from entry to entry are never smaller than their position.
proof fn lemma_key_at_least(entries: Seq<(usize, &NarutoChar)>, i: int)
    requires
        forall|i: int, j: int|
            0 <= i < j < entries.len() ==> (#[trigger] entries[i]).0 < (#[trigger] entries[j]).0,
        0 <= i < entries.len(),
    ensures
        entries[i].0 >= i,
    decreases i,
{
    if i > 0 {
        lemma_key_at_least(entries, i - 1);
    }
}

/// Walking a slab without vacant slots finds key `k` at position `k`.
proof fn lemma_key_is_position(
    entries: Seq<(usize, &NarutoChar)>,
    slots: Seq<Option<NarutoChar>>,
    k: int,
)
    requires
        walks(entries, slots),
        forall|k: int| 0 <= k < slots.len() ==> (#[trigger] slots[k]).is_some(),
        0 <= k < slots.len(),
    ensures
        k < entries.len(),
        entries[k].0 == k,
    decreases k,
{
    assert(slots[k].is_some());
    let i = choose|i: int| 0 <= i < entries.len() && (#[trigger] entries[i]).0 == k;
    lemma_key_at_least(entries, i);
    if i < k {
        lemma_key_is_position(entries, slots, i);
    }
}

/// Walking a slab without vacant slots finds its occupants, each under its
/// position.
proof fn lemma_walk_finds_occupants(
    entries: Seq<(usize, &NarutoChar)>,
    slots: Seq<Option<NarutoChar>>,
)
    requires
        walks(entries, slots),
        forall|k: int| 0 <= k < slots.len() ==> (#[trigger] slots[k]).is_some(),
    ensures
        entries.len() == slots.len(),
        forall|i: int|
            0 <= i < entries.len() ==> (#[trigger] entries[i]).0 == i && *entries[i].1
                == occupants(slots)[i],
{
    if entries.len() > slots.len() {
        lemma_key_at_least(entries, entries.len() - 1);
        assert(entries[entries.len() - 1].0 < slots.len());
    }
    if entries.len() < slots.len() {
        lemma_key_is_position(entries, slots, slots.len() - 1);
    }
    assert forall|i: int| 0 <= i < entries.len() implies (#[trigger] entries[i]).0 == i
        && *entries[i].1 == occupants(slots)[i] by {
        lemma_key_is_position(entries, slots, i);
    }
}

/// No two characters of the roster share an id.
proof fn lemma_roster_ids_differ()
    ensures
        forall|j: int, k: int|
            0 <= j < k < roster().len() ==> (#[trigger] roster()[j]).id != (#[trigger] roster()[k]).id,
{
    reveal_strlit("1000");
    reveal_strlit("1001");
    reveal_strlit("1002");
    reveal_strlit("1003");
    reveal_strlit("1004");
    reveal_strlit("1005");
    assert("1000"@[3] == '0');
    assert("1001"@[3] == '1');
    assert("1002"@[3] == '2');
    assert("1003"@[3] == '3');
    assert("1004"@[3] == '4');
    assert("1005"@[3] == '5');
}

/// Filtering takes nothing from a sequence whose every element passes.
proof fn lemma_filter_keeps_all(keys: Seq<usize>, pred: spec_fn(usize) -> bool)
    requires
        forall|i: int| 0 <= i < keys.len() ==> pred(#[trigger] keys[i]),
    ensures
        keys.filter(pred) == keys,
    decreases keys.len(),
{
    reveal(Seq::filter);
    if keys.len() > 0 {
        lemma_filter_keeps_all(keys.drop_last(), pred);
        assert(keys.drop_last().push(keys.last()) == keys);
    }
}

impl NarutoShippuden {
    /// The characters of the roster; a character's key is its position.
    pub closed spec fn characters(&self) -> Seq<NarutoChar> {
        occupants(slab_slots(self.chars))
    }

    /// Key of the hero of the whole saga.
    pub closed spec fn naruto_key(&self) -> int {
        self.naruto as int
    }

    /// Key of the hero of the stone village.
    pub closed spec fn gara_key(&self) -> int {
        self.gara as int
    }

    /// Key of the hero of the rain village.
    pub closed spec fn pain_key(&self) -> int {
        self.pain as int
    }

    #[verifier::type_invariant]
    spec fn well_formed(&self) -> bool {
        let slots = slab_slots(self.chars);
        &&& forall|k: int| 0 <= k < slots.len() ==> (#[trigger] slots[k]).is_some()
        &&& self.naruto < slots.len()
        &&& self.gara < slots.len()
        &&& self.pain < slots.len()
        &&& friends_enrolled(occupants(slots))
        &&& indexes(self.chars_by_id@, occupants(slots))
    }

    /// Enrols the six characters of [`roster`], links each to its friends and
    /// indexes them by id.
    pub fn new() -> (store: Self)
        ensures
            store.characters().len() == roster().len(),
            forall|k: int|
                0 <= k < roster().len() ==> (#[trigger] store.characters()[k])@ == roster()[k],
            store.naruto_key() == 0,
            store.gara_key() == 4,
            store.pain_key() == 5,
    {
        let mut chars = slab_new();

        let naruto = slab_insert(
            &mut chars,
            NarutoChar {
                id: "1000",
                name: "Naruto Uzumaki",
                friends: Vec::new(),
                village: Village::Konoha,
                elements: vec![Element::Wind],
            },
        );

        let sasuke = slab_insert(
            &mut chars,
            NarutoChar {
                id: "1001",
                name: "Sasuke Uchiha",
                friends: Vec::new(),
                village: Village::Konoha,
                elements: vec![Element::Lightning],
            },
        );

        let sakura = slab_insert(
            &mut chars,
            NarutoChar {
                id: "1002",
                name: "Sakura Haruno",
                friends: Vec::new(),
                village: Village::Konoha,
                elements: vec![Element::Earth],
            },
        );

        let kakashi = slab_insert(
            &mut chars,
            NarutoChar {
                id: "1003",
                name: "Kakashi Hatake",
                friends: Vec::new(),
                village: Village::Konoha,
                elements: vec![Element::Lightning],
            },
        );

        let gara = slab_insert(
            &mut chars,
            NarutoChar {
                id: "1004",
                name: "Gara",
                friends: Vec::new(),
                village: Village::Suna,
                elements: vec![Element::Wind, Element::Earth],
            },
        );

        let pain = slab_insert(
            &mut chars,
            NarutoChar {
                id: "1005",
                name: "Pain",
                friends: Vec::new(),
                village: Village::Ame,
                elements: vec![Element::Wind, Element::Water],
            },
        );

        slab_index_mut(&mut chars, naruto).friends = vec![sasuke, sakura, kakashi];
        slab_index_mut(&mut chars, sasuke).friends = vec![naruto, sakura, kakashi];
        slab_index_mut(&mut chars, sakura).friends = vec![naruto, sasuke, kakashi];
        slab_index_mut(&mut chars, kakashi).friends = vec![naruto, sasuke, sakura];
        slab_index_mut(&mut chars, gara).friends = vec![naruto];
        slab_index_mut(&mut chars, pain).friends = vec![naruto];

        let ghost enrolled = occupants(slab_slots(chars));
        proof {
            lemma_roster_ids_differ();
            assert(enrolled[0].friends@ =~= roster()[0].friends);
            assert(enrolled[0].elements@ =~= roster()[0].elements);
            assert(enrolled[0]@ == roster()[0]);
            assert(enrolled[1].friends@ =~= roster()[1].friends);
            assert(enrolled[1].elements@ =~= roster()[1].elements);
            assert(enrolled[1]@ == roster()[1]);
            assert(enrolled[2].friends@ =~= roster()[2].friends);
            assert(enrolled[2].elements@ =~= roster()[2].elements);
            assert(enrolled[2]@ == roster()[2]);
            assert(enrolled[3].friends@ =~= roster()[3].friends);
            assert(enrolled[3].elements@ =~= roster()[3].elements);
            assert(enrolled[3]@ == roster()[3]);
            assert(enrolled[4].friends@ =~= roster()[4].friends);
            assert(enrolled[4].elements@ =~= roster()[4].elements);
            assert(enrolled[4]@ == roster()[4]);
            assert(enrolled[5].friends@ =~= roster()[5].friends);
            assert(enrolled[5].elements@ =~= roster()[5].elements);
            assert(enrolled[5]@ == roster()[5]);
        }

        let entries = slab_iter(&chars);
        proof {
            lemma_walk_finds_occupants(entries@, slab_slots(chars));
        }
        let mut chars_by_id: StringHashMap<usize> = StringHashMap::new();
        let mut i: usize = 0;
        while i < entries.len()
            invariant
                i <= entries@.len(),
                entries@.len() == enrolled.len(),
                forall|k: int|
                    0 <= k < entries@.len() ==> (#[trigger] entries@[k]).0 == k && *entries@[k].1
                        == enrolled[k],
                forall|j: int, k: int|
                    0 <= j < k < enrolled.len() ==> (#[trigger] enrolled[j]).id@
                        != (#[trigger] enrolled[k]).id@,
                forall|k: int| 0 <= k < i ==> chars_by_id@.contains_key(#[trigger] enrolled[k].id@),
                forall|k: int| 0 <= k < i ==> chars_by_id@[#[trigger] enrolled[k].id@] == k,
                forall|id: Seq<char>| #[trigger]
                    chars_by_id@.contains_key(id) ==> chars_by_id@[id] < i
                        && enrolled[chars_by_id@[id] as int].id@ == id,
            decreases entries@.len() - i,
        {
            let (idx, ch) = entries[i];
            chars_by_id.insert(ch.id.to_owned(), idx);
            i += 1;
        }

        Self { naruto, gara, pain, chars, chars_by_id }
    }

    /// The hero of the whole saga.
    pub fn naruto(&self) -> (hero: &NarutoChar)
        ensures
            0 <= self.naruto_key() < self.characters().len(),
            *hero == self.characters()[self.naruto_key()],
    {
        proof {
            use_type_invariant(self);
        }
        slab_get(&self.chars, self.naruto).unwrap()
    }

    /// The hero of the stone village.
    pub fn gara(&self) -> (hero: &NarutoChar)
        ensures
            0 <= self.gara_key() < self.characters().len(),
            *hero == self.characters()[self.gara_key()],
    {
        proof {
            use_type_invariant(self);
        }
        slab_get(&self.chars, self.gara).unwrap()
    }

    /// The hero of the rain village.
    pub fn pain(&self) -> (hero: &NarutoChar)
        ensures
            0 <= self.pain_key() < self.characters().len(),
            *hero == self.characters()[self.pain_key()],
    {
        proof {
            use_type_invariant(self);
        }
        slab_get(&self.chars, self.pain).unwrap()
    }

    /// The character with the given id, if the roster has one. No two
    /// characters of the roster share an id, so there is at most one.
    pub fn human(&self, id: &str) -> (found: Option<&NarutoChar>)
        ensures
            match found {
                Some(ch) => ch.id@ == id@ && self.characters().contains(*ch),
                None => forall|k: int|
                    0 <= k < self.characters().len() ==> (#[trigger] self.characters()[k]).id@ != id@,
            },
            forall|k: int|
                0 <= k < self.characters().len() && (#[trigger] self.characters()[k]).id@ == id@
                    ==> found == Some(&self.characters()[k]),
    {
        proof {
            use_type_invariant(self);
        }
        match self.chars_by_id.get(id) {
            Some(idx) => {
                let ch = slab_get(&self.chars, *idx).unwrap();
                assert(*ch == self.characters()[*idx as int]);
                Some(ch)
            },
            None => None,
        }
    }

    /// Every character of the roster, in key order.
    pub fn humans(&self) -> (all: Vec<&NarutoChar>)
        ensures
            all@.len() == self.characters().len(),
            forall|k: int| 0 <= k < all@.len() ==> *(#[trigger] all@[k]) == self.characters()[k],
    {
        proof {
            use_type_invariant(self);
        }
        let entries = slab_iter(&self.chars);
        proof {
            lemma_walk_finds_occupants(entries@, slab_slots(self.chars));
        }
        let mut all: Vec<&NarutoChar> = Vec::new();
        let mut i: usize = 0;
        while i < entries.len()
            invariant
                i <= entries@.len(),
                all@.len() == i,
                entries@.len() == self.characters().len(),
                forall|k: int|
                    0 <= k < entries@.len() ==> *(#[trigger] entries@[k]).1 == self.characters()[k],
                forall|k: int| 0 <= k < i ==> *(#[trigger] all@[k]) == self.characters()[k],
            decreases entries@.len() - i,
        {
            all.push(entries[i].1);
            i += 1;
        }
        all
    }

    /// The friends of `ch` that the roster knows, in the order in which `ch`
    /// names them. For a character of the roster that is every friend named.
    pub fn friends(&self, ch: &NarutoChar) -> (known: Vec<&NarutoChar>)
        ensures
            ({
                let keys = enrolled_keys(ch.friends@, self.characters().len());
                &&& known@.len() == keys.len()
                &&& forall|i: int|
                    0 <= i < keys.len() ==> *(#[trigger] known@[i]) == self.characters()[keys[i] as int]
            }),
            self.characters().contains(*ch) ==> enrolled_keys(ch.friends@, self.characters().len())
                == ch.friends@,
    {
        proof {
            use_type_invariant(self);
        }
        let ghost count = self.characters().len();
        let mut known: Vec<&NarutoChar> = Vec::new();
        let mut i: usize = 0;
        while i < ch.friends.len()
            invariant
                i <= ch.friends@.len(),
                count == self.characters().len(),
                forall|k: int|
                    0 <= k < slab_slots(self.chars).len() ==> (#[trigger] slab_slots(
                        self.chars,
                    )[k]).is_some(),
                known@.len() == enrolled_keys(ch.friends@.take(i as int), count).len(),
                forall|j: int|
                    0 <= j < known@.len() ==> *(#[trigger] known@[j]) == self.characters()[enrolled_keys(
                        ch.friends@.take(i as int),
                        count,
                    )[j] as int],
            decreases ch.friends@.len() - i,
        {
            proof {
                let grown = ch.friends@.take(i + 1);
                reveal(Seq::filter);
                assert(grown.drop_last() == ch.friends@.take(i as int));
                assert(grown.last() == ch.friends@[i as int]);
            }
            if let Some(friend) = slab_get(&self.chars, ch.friends[i]) {
                known.push(friend);
            }
            i += 1;
        }
        proof {
            assert(ch.friends@.take(i as int) == ch.friends@);
            if self.characters().contains(*ch) {
                lemma_filter_keeps_all(ch.friends@, |key: usize| key < count);
            }
        }
        known
    }
}

} // verus!
