//! A map from text to values.

use crate::protocol;
use crate::text;
use vstd::prelude::*;

verus! {

/// A map with text keys. It lists its keys in the order in which they came in.
#[derive(Debug)]
pub struct StrMap<V> {
    entries: Vec<(String, V)>,
}

/// The keys of a list of entries.
spec fn keys_of<V>(entries: Seq<(String, V)>) -> Seq<Seq<char>> {
    entries.map_values(|e: (String, V)| e.0@)
}

/// The map that a list of entries stands for.
spec fn map_of<V>(entries: Seq<(String, V)>) -> Map<Seq<char>, V> {
    Map::new(
        |k: Seq<char>| exists|i: int| 0 <= i < entries.len() && (#[trigger] entries[i]).0@ == k,
        |k: Seq<char>|
            entries[choose|i: int| 0 <= i < entries.len() && (#[trigger] entries[i]).0@ == k].1,
    )
}

/// No key occurs twice.
spec fn distinct<V>(entries: Seq<(String, V)>) -> bool {
    forall|i: int, j: int|
        0 <= i < j < entries.len() ==> (#[trigger] entries[i]).0@ != (#[trigger] entries[j]).0@
}

impl<V> View for StrMap<V> {
    type V = Map<Seq<char>, V>;

    closed spec fn view(&self) -> Map<Seq<char>, V> {
        map_of(self.entries@)
    }
}

/// The position of a key in a list of entries, or its length.
fn position<V>(entries: &Vec<(String, V)>, key: &str) -> (r: usize)
    ensures
        r <= entries@.len(),
        r < entries@.len() ==> entries@[r as int].0@ == key@,
        forall|j: int| 0 <= j < r ==> (#[trigger] entries@[j]).0@ != key@,
{
    let mut i: usize = 0;
    while i < entries.len()
        invariant
            i <= entries@.len(),
            forall|j: int| 0 <= j < i ==> (#[trigger] entries@[j]).0@ != key@,
        decreases entries.len() - i,
    {
        if text::str_eq(entries[i].0.as_str(), key) {
            return i;
        }
        i = i + 1;
    }
    i
}

impl<V> StrMap<V> {
    #[verifier::type_invariant]
    spec fn well_formed(self) -> bool {
        distinct(self.entries@)
    }

    /// The keys in the order in which they came in.
    pub closed spec fn order(self) -> Seq<Seq<char>> {
        keys_of(self.entries@)
    }

    pub fn new() -> (r: Self)
        ensures
            r@ == Map::<Seq<char>, V>::empty(),
            r.order() == Seq::<Seq<char>>::empty(),
    {
        let r = StrMap { entries: Vec::new() };
        assert(r@ =~= Map::<Seq<char>, V>::empty());
        assert(r.order() =~= Seq::<Seq<char>>::empty());
        r
    }

    /// The keys are listed once each, and all of them.
    pub fn len(&self) -> (r: usize)
        ensures
            r == self.order().len(),
            r == self@.len(),
            self@.dom().finite(),
            self.order().no_duplicates(),
            forall|k: Seq<char>| self@.dom().contains(k) <==> self.order().contains(k),
    {
        proof {
            use_type_invariant(self);
            lemma_order(self.entries@);
        }
        self.entries.len()
    }

    /// The key at position `i` of the listing, and its value.
    pub fn entry(&self, i: usize) -> (r: (&String, &V))
        requires
            i < self.order().len(),
        ensures
            r.0@ == self.order()[i as int],
            self@.dom().contains(r.0@),
            self@[r.0@] == *r.1,
    {
        proof {
            use_type_invariant(self);
            lemma_lookup(self.entries@, i as int);
        }
        (&self.entries[i].0, &self.entries[i].1)
    }

    pub fn contains_key(&self, key: &str) -> (r: bool)
        ensures
            r == self@.dom().contains(key@),
    {
        let i = position(&self.entries, key);
        i < self.entries.len()
    }

    pub fn get(&self, key: &str) -> (r: Option<&V>)
        ensures
            match r {
                Some(v) => self@.dom().contains(key@) && *v == self@[key@],
                None => !self@.dom().contains(key@),
            },
    {
        let i = position(&self.entries, key);
        if i < self.entries.len() {
            proof {
                use_type_invariant(self);
                lemma_lookup(self.entries@, i as int);
            }
            Some(&self.entries[i].1)
        } else {
            None
        }
    }

    /// Sets a key to a value; a value that it had is dropped.
    pub fn insert(&mut self, key: String, value: V)
        ensures
            final(self)@ == old(self)@.insert(key@, value),
            final(self).order() == if old(self)@.dom().contains(key@) {
                old(self).order()
            } else {
                old(self).order().push(key@)
            },
    {
        proof {
            use_type_invariant(&*self);
        }
        let ghost before = self.entries@;
        let mut entries: Vec<(String, V)> = Vec::new();
        std::mem::swap(&mut entries, &mut self.entries);
        let i = position(&entries, key.as_str());
        if i < entries.len() {
            entries.set(i, (key, value));
        } else {
            entries.push((key, value));
        }
        proof {
            lemma_insert(before, entries@, i as int);
        }
        self.entries = entries;
    }

    /// Takes a key out of the map.
    pub fn remove(&mut self, key: &str) -> (r: Option<V>)
        ensures
            final(self)@ == old(self)@.remove(key@),
            match r {
                Some(v) => old(self)@.dom().contains(key@) && v == old(self)@[key@],
                None => !old(self)@.dom().contains(key@),
            },
    {
        proof {
            use_type_invariant(&*self);
        }
        let ghost before = self.entries@;
        let mut entries: Vec<(String, V)> = Vec::new();
        std::mem::swap(&mut entries, &mut self.entries);
        let i = position(&entries, key);
        let mut taken: Option<V> = None;
        if i < entries.len() {
            proof {
                lemma_lookup(before, i as int);
            }
            let (_, v) = entries.remove(i);
            taken = Some(v);
            proof {
                lemma_remove(before, entries@, i as int);
            }
        } else {
            assert(map_of(before).remove(key@) =~= map_of(before));
        }
        self.entries = entries;
        taken
    }

    /// The keys in the order in which they came in.
    pub fn keys(&self) -> (r: Vec<String>)
        ensures
            protocol::texts(r@) == self.order(),
            self.order().no_duplicates(),
            self.order().to_set() == self@.dom(),
    {
        proof {
            use_type_invariant(self);
            lemma_order(self.entries@);
        }
        let mut keys: Vec<String> = Vec::new();
        let mut i: usize = 0;
        while i < self.entries.len()
            invariant
                i <= self.entries@.len(),
                keys@.len() == i,
                forall|j: int| 0 <= j < i ==> (#[trigger] keys@[j])@ == self.entries@[j].0@,
            decreases self.entries.len() - i,
        {
            keys.push(self.entries[i].0.clone());
            i = i + 1;
        }
        assert(protocol::texts(keys@) =~= self.order());
        assert(self.order().to_set() =~= self@.dom());
        keys
    }
}

/// The texts that a map of strings holds.
pub open spec fn text_map(m: Map<Seq<char>, String>) -> Map<Seq<char>, Seq<char>> {
    m.map_values(|s: String| s@)
}

/// A copy of a map of strings.
pub fn copy_text_map(m: &StrMap<String>) -> (r: StrMap<String>)
    ensures
        text_map(r@) == text_map(m@),
        r.order() == m.order(),
{
    let mut copy: StrMap<String> = StrMap::new();
    let n = m.len();
    let mut i: usize = 0;
    while i < n
        invariant
            n == m.order().len(),
            i <= n,
            m.order().no_duplicates(),
            forall|k: Seq<char>| m@.dom().contains(k) <==> m.order().contains(k),
            copy.order() == m.order().take(i as int),
            forall|k: Seq<char>|
                #[trigger] copy@.dom().contains(k) <==> m.order().take(i as int).contains(k),
            forall|k: Seq<char>| #[trigger] copy@.dom().contains(k) ==> copy@[k]@ == m@[k]@,
        decreases n - i,
    {
        let (key, value) = m.entry(i);
        let ghost before = m.order().take(i as int);
        let ghost k0 = m.order()[i as int];
        assert(!before.contains(k0));
        assert(m.order().take(i + 1) =~= before.push(k0));
        copy.insert(key.clone(), value.clone());
        assert forall|k: Seq<char>|
            #[trigger] copy@.dom().contains(k) <==> m.order().take(i + 1).contains(k) by {
            if before.contains(k) {
                let j = choose|j: int| 0 <= j < before.len() && before[j] == k;
                assert(before.push(k0)[j] == k);
            }
            assert(before.push(k0)[i as int] == k0);
        }
        i = i + 1;
    }
    assert(m.order().take(n as int) =~= m.order());
    assert(text_map(copy@) =~= text_map(m@));
    copy
}

/// A listed entry is what the map holds under its key.
proof fn lemma_lookup<V>(entries: Seq<(String, V)>, i: int)
    requires
        distinct(entries),
        0 <= i < entries.len(),
    ensures
        map_of(entries).dom().contains(entries[i].0@),
        map_of(entries)[entries[i].0@] == entries[i].1,
{
    let k = entries[i].0@;
    let c = choose|j: int| 0 <= j < entries.len() && (#[trigger] entries[j]).0@ == k;
    assert(entries[i].0@ == k);
    assert(c == i);
}

/// The listing of the keys is the domain of the map.
proof fn lemma_order<V>(entries: Seq<(String, V)>)
    requires
        distinct(entries),
    ensures
        keys_of(entries).no_duplicates(),
        forall|k: Seq<char>|
            map_of(entries).dom().contains(k) <==> keys_of(entries).contains(k),
        map_of(entries).dom().finite(),
        map_of(entries).len() == entries.len(),
{
    let keys = keys_of(entries);
    assert forall|k: Seq<char>| map_of(entries).dom().contains(k) <==> keys.contains(k) by {
        if map_of(entries).dom().contains(k) {
            let i = choose|i: int| 0 <= i < entries.len() && (#[trigger] entries[i]).0@ == k;
            assert(keys[i] == k);
        }
        if keys.contains(k) {
            let i = choose|i: int| 0 <= i < keys.len() && keys[i] == k;
            assert(entries[i].0@ == k);
        }
    }
    assert(keys.to_set() =~= map_of(entries).dom());
    keys.unique_seq_to_set();
}

/// Replacing the entry at `i`, or appending one, is inserting into the map.
proof fn lemma_insert<V>(before: Seq<(String, V)>, after: Seq<(String, V)>, i: int)
    requires
        distinct(before),
        0 <= i <= before.len(),
        i < before.len() ==> after == before.update(i, after[i]) && after[i].0@ == before[i].0@,
        i == before.len() ==> after == before.push(after[i]),
        forall|j: int| 0 <= j < i ==> (#[trigger] before[j]).0@ != after[i].0@,
    ensures
        distinct(after),
        map_of(after) == map_of(before).insert(after[i].0@, after[i].1),
        keys_of(after) == if map_of(before).dom().contains(after[i].0@) {
            keys_of(before)
        } else {
            keys_of(before).push(after[i].0@)
        },
{
    let k = after[i].0@;
    let v = after[i].1;
    assert(distinct(after)) by {
        assert forall|a: int, b: int| 0 <= a < b < after.len() implies (#[trigger] after[a]).0@ != (
        #[trigger] after[b]).0@ by {
            if i < before.len() {
                assert(before[a].0@ != before[b].0@);
            } else if b < before.len() {
                assert(before[a].0@ != before[b].0@);
            }
        }
    }
    assert forall|key: Seq<char>|
        map_of(after).dom().contains(key) <==> map_of(before).insert(k, v).dom().contains(key) by {
        if map_of(after).dom().contains(key) {
            let j = choose|j: int| 0 <= j < after.len() && (#[trigger] after[j]).0@ == key;
            if j != i {
                assert(before[j].0@ == key);
            }
        }
        if map_of(before).dom().contains(key) {
            let j = choose|j: int| 0 <= j < before.len() && (#[trigger] before[j]).0@ == key;
            assert(after[j].0@ == key);
        }
        if key == k {
            assert(after[i].0@ == key);
        }
    }
    assert forall|key: Seq<char>| #[trigger] map_of(after).dom().contains(key) implies map_of(
        after,
    )[key] == map_of(before).insert(k, v)[key] by {
        let j = choose|j: int| 0 <= j < after.len() && (#[trigger] after[j]).0@ == key;
        lemma_lookup(after, j);
        if key == k {
            assert(after[i].0@ == key);
            assert(j == i);
        } else {
            assert(before[j].0@ == key);
            lemma_lookup(before, j);
        }
    }
    assert(map_of(after) =~= map_of(before).insert(k, v));
    if i < before.len() {
        assert(before[i].0@ == k);
        assert(keys_of(after) =~= keys_of(before));
    } else {
        assert(!map_of(before).dom().contains(k));
        assert(keys_of(after) =~= keys_of(before).push(k));
    }
}

/// Taking out the entry at `i` is removing its key from the map.
proof fn lemma_remove<V>(before: Seq<(String, V)>, after: Seq<(String, V)>, i: int)
    requires
        distinct(before),
        0 <= i < before.len(),
        after == before.remove(i),
    ensures
        distinct(after),
        map_of(after) == map_of(before).remove(before[i].0@),
{
    let k = before[i].0@;
    let back = |j: int| if j < i { j } else { j + 1 };
    assert forall|j: int| 0 <= j < after.len() implies (#[trigger] after[j]) == before[back(j)] by {}
    assert(distinct(after)) by {
        assert forall|a: int, b: int| 0 <= a < b < after.len() implies (#[trigger] after[a]).0@ != (
        #[trigger] after[b]).0@ by {
            assert(before[back(a)].0@ != before[back(b)].0@);
        }
    }
    assert forall|key: Seq<char>|
        map_of(after).dom().contains(key) <==> map_of(before).remove(k).dom().contains(key) by {
        if map_of(after).dom().contains(key) {
            let j = choose|j: int| 0 <= j < after.len() && (#[trigger] after[j]).0@ == key;
            assert(before[back(j)].0@ == key);
        }
        if map_of(before).dom().contains(key) && key != k {
            let j = choose|j: int| 0 <= j < before.len() && (#[trigger] before[j]).0@ == key;
            let a = if j < i { j } else { j - 1 };
            assert(after[a] == before[j]);
        }
    }
    assert forall|key: Seq<char>| #[trigger] map_of(after).dom().contains(key) implies map_of(
        after,
    )[key] == map_of(before).remove(k)[key] by {
        let j = choose|j: int| 0 <= j < after.len() && (#[trigger] after[j]).0@ == key;
        lemma_lookup(after, j);
        assert(before[back(j)].0@ == key);
        lemma_lookup(before, back(j));
    }
    assert(map_of(after) =~= map_of(before).remove(k));
}

/// What was put in under a key is found there, and what was taken out is not; the other
/// keys are as they were.
pub proof fn law_map_gives_what_was_put_in<V>(
    a: &mut StrMap<V>,
    key: String,
    value: V,
    after: StrMap<V>,
    name: &str,
    found: Option<&V>,
    b: &mut StrMap<V>,
    removed: Option<V>,
    left: StrMap<V>,
    still: bool,
    other: Seq<char>,
)
    requires
        call_ensures(StrMap::<V>::insert, (a, key, value), ()),
        after == *final(a),
        name@ == key@,
        call_ensures(StrMap::<V>::get, (&after, name), found),
        call_ensures(StrMap::<V>::remove, (b, name), removed),
        left == *final(b),
        call_ensures(StrMap::<V>::contains_key, (&left, name), still),
        other != name@,
    ensures
        found matches Some(v) && *v == value,
        final(a)@.dom().contains(other) <==> old(a)@.dom().contains(other),
        old(a)@.dom().contains(other) ==> final(a)@[other] == old(a)@[other],
        removed is Some <==> old(b)@.dom().contains(name@),
        removed matches Some(v) ==> v == old(b)@[name@],
        !still,
        final(b)@.dom().contains(other) <==> old(b)@.dom().contains(other),
        old(b)@.dom().contains(other) ==> final(b)@[other] == old(b)@[other],
{
}

} // verus!
