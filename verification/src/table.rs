//! A table keyed by text.
//!
//! No key occurs twice, and the keys stay in the order in which they came.

use vstd::prelude::*;

use crate::text::{text_eq, views, without};

verus! {

/// A map from strings to values that remembers the order of its keys.
#[derive(Debug)]
pub struct Table<V> {
    names: Vec<String>,
    values: Vec<V>,
}

/// The position of `key` in `keys`.
spec fn position(keys: Seq<Seq<char>>, key: Seq<char>) -> int {
    choose|i: int| 0 <= i < keys.len() && keys[i] == key
}

/// The map from distinct keys to the values at their positions.
spec fn map_of<V>(keys: Seq<Seq<char>>, values: Seq<V>) -> Map<Seq<char>, V> {
    Map::new(|k: Seq<char>| keys.contains(k), |k: Seq<char>| values[position(keys, k)])
}

/// The map gives under each key the value at the key's position.
proof fn lemma_map_of<V>(keys: Seq<Seq<char>>, values: Seq<V>)
    requires
        keys.no_duplicates(),
    ensures
        forall|i: int|
            0 <= i < keys.len() ==> map_of(keys, values).contains_key(#[trigger] keys[i])
                && map_of(keys, values)[keys[i]] == values[i],
        forall|k: Seq<char>| #[trigger]
            map_of(keys, values).contains_key(k) <==> keys.contains(k),
{
    assert forall|i: int| 0 <= i < keys.len() implies map_of(keys, values).contains_key(
        #[trigger] keys[i],
    ) && map_of(keys, values)[keys[i]] == values[i] by {
        assert(position(keys, keys[i]) == i);
    }
}

/// With another value at the position of a key, the map has it under that key.
proof fn lemma_map_update<V>(keys: Seq<Seq<char>>, values: Seq<V>, i: int, value: V)
    requires
        keys.no_duplicates(),
        0 <= i < keys.len(),
        keys.len() == values.len(),
    ensures
        map_of(keys, values.update(i, value)) == map_of(keys, values).insert(keys[i], value),
{
    let a = map_of(keys, values.update(i, value));
    let b = map_of(keys, values).insert(keys[i], value);
    lemma_map_of(keys, values);
    lemma_map_of(keys, values.update(i, value));
    assert forall|q: Seq<char>| #[trigger] a.contains_key(q) implies a[q] == b[q] by {
        let j = choose|j: int| 0 <= j < keys.len() && keys[j] == q;
        assert(a[keys[j]] == values.update(i, value)[j]);
    }
    assert(a =~= b);
}

/// A new key and its value at the end.
proof fn lemma_map_push<V>(keys: Seq<Seq<char>>, values: Seq<V>, key: Seq<char>, value: V)
    requires
        keys.no_duplicates(),
        !keys.contains(key),
        keys.len() == values.len(),
    ensures
        keys.push(key).no_duplicates(),
        map_of(keys.push(key), values.push(value)) == map_of(keys, values).insert(key, value),
{
    let k2 = keys.push(key);
    let v2 = values.push(value);
    let a = map_of(k2, v2);
    let b = map_of(keys, values).insert(key, value);
    lemma_map_of(keys, values);
    lemma_map_of(k2, v2);
    assert(k2[keys.len() as int] == key);
    assert forall|q: Seq<char>| #[trigger] a.contains_key(q) <==> b.contains_key(q) by {
        if keys.contains(q) {
            let j = choose|j: int| 0 <= j < keys.len() && keys[j] == q;
            assert(k2[j] == q);
        }
        if k2.contains(q) && q != key {
            let j = choose|j: int| 0 <= j < k2.len() && k2[j] == q;
            assert(keys[j] == q);
        }
    }
    assert forall|q: Seq<char>| #[trigger] a.contains_key(q) implies a[q] == b[q] by {
        let j = choose|j: int| 0 <= j < k2.len() && k2[j] == q;
        assert(a[k2[j]] == v2[j]);
        if q != key {
            assert(keys[j] == q);
            assert(map_of(keys, values)[keys[j]] == values[j]);
        }
    }
    assert(a =~= b);
}

/// Without the key at position `i` and its value.
proof fn lemma_map_remove<V>(keys: Seq<Seq<char>>, values: Seq<V>, i: int)
    requires
        keys.no_duplicates(),
        0 <= i < keys.len(),
        keys.len() == values.len(),
    ensures
        keys.remove(i).no_duplicates(),
        keys.remove(i) == without(keys, keys[i]),
        map_of(keys.remove(i), values.remove(i)) == map_of(keys, values).remove(keys[i]),
{
    let k2 = keys.remove(i);
    let v2 = values.remove(i);
    assert forall|a: int, b: int| 0 <= a < b < k2.len() implies k2[a] != k2[b] by {
        let a2 = if a < i {
            a
        } else {
            a + 1
        };
        let b2 = if b < i {
            b
        } else {
            b + 1
        };
        assert(k2[a] == keys[a2]);
        assert(k2[b] == keys[b2]);
    }
    lemma_without_one(keys, keys[i], i);
    lemma_map_of(keys, values);
    lemma_map_of(k2, v2);
    let a = map_of(k2, v2);
    let b = map_of(keys, values).remove(keys[i]);
    assert forall|q: Seq<char>| #[trigger] a.contains_key(q) <==> b.contains_key(q) by {
        if q != keys[i] && keys.contains(q) {
            let j = choose|j: int| 0 <= j < keys.len() && keys[j] == q;
            let j2 = if j < i {
                j
            } else {
                j - 1
            };
            assert(k2[j2] == q);
        }
        if k2.contains(q) {
            let j = choose|j: int| 0 <= j < k2.len() && k2[j] == q;
            let j2 = if j < i {
                j
            } else {
                j + 1
            };
            assert(keys[j2] == q);
        }
    }
    assert forall|q: Seq<char>| #[trigger] a.contains_key(q) implies a[q] == b[q] by {
        let j = choose|j: int| 0 <= j < k2.len() && k2[j] == q;
        let j2 = if j < i {
            j
        } else {
            j + 1
        };
        assert(a[k2[j]] == v2[j]);
        assert(keys[j2] == q);
        assert(map_of(keys, values)[keys[j2]] == values[j2]);
    }
    assert(a =~= b);
}

proof fn lemma_without_none(keys: Seq<Seq<char>>, key: Seq<char>)
    requires
        !keys.contains(key),
    ensures
        without(keys, key) == keys,
    decreases keys.len(),
{
    if keys.len() > 0 {
        assert forall|i: int| 0 <= i < keys.drop_last().len() implies keys.drop_last()[i]
            != key by {
            assert(keys[i] == keys.drop_last()[i]);
        }
        assert(!keys.drop_last().contains(key));
        lemma_without_none(keys.drop_last(), key);
        assert(keys.contains(keys.last()));
        assert(keys.drop_last().push(keys.last()) =~= keys);
    }
}

proof fn lemma_without_one(keys: Seq<Seq<char>>, key: Seq<char>, i: int)
    requires
        0 <= i < keys.len(),
        keys[i] == key,
        keys.no_duplicates(),
    ensures
        without(keys, key) == keys.remove(i),
    decreases keys.len(),
{
    let front = keys.drop_last();
    if i == keys.len() - 1 {
        assert(!front.contains(key));
        lemma_without_none(front, key);
        assert(keys.remove(i) =~= front);
    } else {
        assert(front[i] == key);
        lemma_without_one(front, key, i);
        assert(keys.last() != key);
        assert(keys.remove(i) =~= front.remove(i).push(keys.last()));
    }
}

impl<V> View for Table<V> {
    type V = Map<Seq<char>, V>;

    closed spec fn view(&self) -> Map<Seq<char>, V> {
        map_of(views(self.names@), self.values@)
    }
}

impl<V> Table<V> {
    #[verifier::type_invariant]
    spec fn distinct(self) -> bool {
        views(self.names@).no_duplicates() && self.names@.len() == self.values@.len()
    }

    /// The keys, in the order in which they came.
    pub closed spec fn keys(self) -> Seq<Seq<char>> {
        views(self.names@)
    }

    /// An empty table.
    pub fn new() -> (r: Self)
        ensures
            r@ == Map::<Seq<char>, V>::empty(),
            r.keys() == Seq::<Seq<char>>::empty(),
    {
        let r = Table { names: Vec::new(), values: Vec::new() };
        assert(r.keys() =~= Seq::<Seq<char>>::empty());
        assert(r@ =~= Map::<Seq<char>, V>::empty());
        r
    }

    /// The number of keys. The keys are distinct, and are the keys of the map.
    pub fn len(&self) -> (r: usize)
        ensures
            r == self.keys().len(),
            self.keys().no_duplicates(),
            forall|k: Seq<char>| #[trigger] self@.contains_key(k) <==> self.keys().contains(k),
    {
        proof {
            use_type_invariant(self);
            lemma_map_of(views(self.names@), self.values@);
        }
        self.names.len()
    }

    /// Whether there is no key.
    pub fn is_empty(&self) -> (r: bool)
        ensures
            r == (self.keys().len() == 0),
            r == (self@ == Map::<Seq<char>, V>::empty()),
    {
        proof {
            use_type_invariant(self);
            lemma_map_of(views(self.names@), self.values@);
            if self.names@.len() > 0 {
                assert(self@.contains_key(views(self.names@)[0]));
            } else {
                assert(self@ =~= Map::<Seq<char>, V>::empty());
            }
        }
        self.names.len() == 0
    }

    /// The key at position `i`.
    pub fn key_at(&self, i: usize) -> (r: &str)
        requires
            i < self.keys().len(),
        ensures
            r@ == self.keys()[i as int],
            self@.contains_key(r@),
    {
        proof {
            use_type_invariant(self);
            lemma_map_of(views(self.names@), self.values@);
        }
        let r = self.names[i].as_str();
        assert(views(self.names@)[i as int] == r@);
        r
    }

    /// The value under the key at position `i`.
    pub fn value_at(&self, i: usize) -> (r: &V)
        requires
            i < self.keys().len(),
        ensures
            self@.contains_key(self.keys()[i as int]),
            *r == self@[self.keys()[i as int]],
    {
        proof {
            use_type_invariant(self);
            lemma_map_of(views(self.names@), self.values@);
        }
        &self.values[i]
    }

    /// The position of `key`, if it is there.
    fn find(&self, key: &str) -> (r: Option<usize>)
        ensures
            match r {
                Some(i) => i < self.names@.len() && self.keys()[i as int] == key@
                    && self@.contains_key(key@) && self.values@[i as int] == self@[key@],
                None => !self.keys().contains(key@) && !self@.contains_key(key@),
            },
    {
        proof {
            use_type_invariant(self);
            lemma_map_of(views(self.names@), self.values@);
        }
        let mut i: usize = 0;
        while i < self.names.len()
            invariant
                i <= self.names@.len(),
                forall|j: int| 0 <= j < i ==> (#[trigger] self.names@[j])@ != key@,
                views(self.names@).no_duplicates(),
            decreases self.names.len() - i,
        {
            if text_eq(self.names[i].as_str(), key) {
                proof {
                    lemma_map_of(views(self.names@), self.values@);
                    assert(views(self.names@)[i as int] == key@);
                }
                return Some(i);
            }
            i = i + 1;
        }
        assert(!self.keys().contains(key@)) by {
            if self.keys().contains(key@) {
                let j = choose|j: int| 0 <= j < self.keys().len() && self.keys()[j] == key@;
                assert(self.names@[j]@ == key@);
            }
        }
        None
    }

    /// Whether `key` is there.
    pub fn contains_key(&self, key: &str) -> (r: bool)
        ensures
            r == self@.contains_key(key@),
    {
        self.find(key).is_some()
    }

    /// The value under `key`.
    pub fn get(&self, key: &str) -> (r: Option<&V>)
        ensures
            match r {
                Some(v) => self@.contains_key(key@) && *v == self@[key@],
                None => !self@.contains_key(key@),
            },
    {
        match self.find(key) {
            Some(i) => {
                proof {
                    use_type_invariant(self);
                }
                Some(&self.values[i])
            },
            None => None,
        }
    }

    /// The value under `key`, to be changed in place.
    pub fn get_mut(&mut self, key: &str) -> (r: Option<&mut V>)
        ensures
            match r {
                Some(v) => {
                    &&& old(self)@.contains_key(key@)
                    &&& *v == old(self)@[key@]
                    &&& final(self)@ == old(self)@.insert(key@, *final(v))
                },
                None => !old(self)@.contains_key(key@) && final(self)@ == old(self)@,
            },
            final(self).keys() == old(self).keys(),
    {
        match self.find(key) {
            Some(i) => {
                proof {
                    use_type_invariant(&*self);
                    assert forall|value: V| #[trigger]
                        map_of(views(self.names@), self.values@.update(i as int, value))
                            == self@.insert(key@, value) by {
                        lemma_map_update(views(self.names@), self.values@, i as int, value);
                    }
                }
                Some(&mut self.values[i])
            },
            None => None,
        }
    }

    /// Puts `value` under `key`. A new key comes last.
    pub fn insert(&mut self, key: String, value: V)
        ensures
            final(self)@ == old(self)@.insert(key@, value),
            final(self).keys() == (if old(self)@.contains_key(key@) {
                old(self).keys()
            } else {
                old(self).keys().push(key@)
            }),
    {
        let at = self.find(key.as_str());
        proof {
            use_type_invariant(&*self);
        }
        let ghost keys = views(self.names@);
        let ghost vals = self.values@;
        match at {
            Some(i) => {
                proof {
                    lemma_map_update(keys, vals, i as int, value);
                }
                self.values[i] = value;
            },
            None => {
                proof {
                    lemma_map_push(keys, vals, key@, value);
                }
                let ghost k = key@;
                let mut whole: Table<V> = Table::new();
                core::mem::swap(&mut whole, self);
                let mut names = whole.names;
                let mut values = whole.values;
                names.push(key);
                values.push(value);
                assert(views(names@) =~= keys.push(k));
                *self = Table { names, values };
            },
        }
    }

    /// Takes `key` away, and gives back what stood under it.
    pub fn remove(&mut self, key: &str) -> (r: Option<V>)
        ensures
            final(self)@ == old(self)@.remove(key@),
            match r {
                Some(v) => old(self)@.contains_key(key@) && v == old(self)@[key@],
                None => !old(self)@.contains_key(key@),
            },
            final(self).keys() == without(old(self).keys(), key@),
    {
        let at = self.find(key);
        proof {
            use_type_invariant(&*self);
        }
        let ghost keys = views(self.names@);
        let ghost vals = self.values@;
        match at {
            None => {
                proof {
                    lemma_without_none(keys, key@);
                    assert(self@.remove(key@) =~= self@);
                }
                None
            },
            Some(i) => {
                proof {
                    lemma_map_remove(keys, vals, i as int);
                }
                let mut whole: Table<V> = Table::new();
                core::mem::swap(&mut whole, self);
                let mut names = whole.names;
                let mut values = whole.values;
                let _name = names.remove(i);
                let v = values.remove(i);
                assert(views(names@) =~= keys.remove(i as int));
                *self = Table { names, values };
                Some(v)
            },
        }
    }
}

} // verus!
