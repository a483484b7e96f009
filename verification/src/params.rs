//! The parameters of a request URL's query string, by name.
use vstd::prelude::*;
use crate::json::key_position;

verus! {

/// The query parameters of a request: a map from parameter name to value.
/// Each name has at most one value; inserting a name again replaces it.
pub struct UrlParams {
    entries: Vec<(String, String)>,
}

impl UrlParams {
    /// The names, in the order they were first inserted.
    pub closed spec fn names(self) -> Seq<Seq<char>> {
        self.entries@.map_values(|e: (String, String)| e.0@)
    }

    /// The value of `name`, if it has one.
    pub closed spec fn lookup(self, name: Seq<char>) -> Option<Seq<char>> {
        match key_position(self.names(), name, 0) {
            Some(i) => Some(self.entries@[i].1@),
            None => None,
        }
    }
}

impl View for UrlParams {
    type V = Map<Seq<char>, Seq<char>>;

    closed spec fn view(&self) -> Map<Seq<char>, Seq<char>> {
        Map::new(|k: Seq<char>| self.lookup(k) is Some, |k: Seq<char>| self.lookup(k)->0)
    }
}

proof fn lemma_position_in_range(keys: Seq<Seq<char>>, key: Seq<char>, i: int)
    ensures
        key_position(keys, key, i) matches Some(j) ==> i <= j < keys.len() && keys[j] == key,
        key_position(keys, key, i) is None ==> forall|j: int|
            i <= j < keys.len() && 0 <= i ==> keys[j] != key,
    decreases keys.len() - i,
{
    if 0 <= i < keys.len() && keys[i] != key {
        lemma_position_in_range(keys, key, i + 1);
    }
}

proof fn lemma_position_same_prefix(a: Seq<Seq<char>>, b: Seq<Seq<char>>, key: Seq<char>, i: int)
    requires
        0 <= i,
        a.len() == b.len(),
        forall|j: int| i <= j < a.len() ==> (a[j] == key <==> b[j] == key),
    ensures
        key_position(a, key, i) == key_position(b, key, i),
    decreases a.len() - i,
{
    if i < a.len() {
        lemma_position_same_prefix(a, b, key, i + 1);
    }
}

proof fn lemma_position_push(a: Seq<Seq<char>>, x: Seq<char>, key: Seq<char>, i: int)
    requires
        0 <= i,
        key_position(a, key, i) is Some,
    ensures
        key_position(a.push(x), key, i) == key_position(a, key, i),
    decreases a.len() - i,
{
    if i < a.len() && a[i] != key {
        lemma_position_push(a, x, key, i + 1);
    }
}

proof fn lemma_position_push_absent(a: Seq<Seq<char>>, key: Seq<char>, i: int)
    requires
        0 <= i <= a.len(),
        key_position(a, key, i) is None,
    ensures
        key_position(a.push(key), key, i) == Some(a.len() as int),
    decreases a.len() - i,
{
    if i < a.len() {
        lemma_position_push_absent(a, key, i + 1);
    }
}

impl UrlParams {
    /// No parameters.
    pub fn new() -> (r: UrlParams)
        ensures
            r@ == Map::<Seq<char>, Seq<char>>::empty(),
    {
        let r = UrlParams { entries: Vec::new() };
        assert(r@ =~= Map::<Seq<char>, Seq<char>>::empty());
        r
    }

    /// The value of `name`, where it has one.
    pub fn get(&self, name: &str) -> (r: Option<&String>)
        ensures
            match r {
                Some(v) => self@.contains_key(name@) && self@[name@] == v@,
                None => !self@.contains_key(name@),
            },
    {
        let key = String::from_str(name);
        let mut i: usize = 0;
        while i < self.entries.len()
            invariant
                i <= self.entries.len(),
                key@ == name@,
                key_position(self.names(), name@, 0) == key_position(self.names(), name@, i as int),
            decreases self.entries.len() - i,
        {
            if self.entries[i].0 == key {
                assert(self.names()[i as int] == name@);
                return Some(&self.entries[i].1);
            }
            assert(self.names()[i as int] != name@);
            i += 1;
        }
        None
    }

    /// Sets the value of `name` to `value`, replacing any value it had.
    pub fn insert(&mut self, name: String, value: String)
        ensures
            final(self)@ == old(self)@.insert(name@, value@),
    {
        let ghost old_names = self.names();
        let ghost old_self = *self;
        let mut i: usize = 0;
        while i < self.entries.len()
            invariant
                i <= self.entries.len(),
                *self == old_self,
                old_self == *old(self),
                old_names == self.names(),
                key_position(old_names, name@, 0) == key_position(old_names, name@, i as int),
            decreases self.entries.len() - i,
        {
            if self.entries[i].0 == name {
                assert(old_names[i as int] == name@);
                self.entries.set(i, (name, value));
                proof {
                    let new_names = self.names();
                    assert(new_names =~= old_names);
                    assert forall|k: Seq<char>| #![auto] self.lookup(k) == (if k == name@ { Some(value@) } else { old_self.lookup(k) }) by {
                        lemma_position_in_range(old_names, k, 0);
                    }
                    assert(self@ =~= old_self@.insert(name@, value@));
                }
                return;
            }
            assert(old_names[i as int] != name@);
            i += 1;
        }
        proof {
            lemma_position_in_range(old_names, name@, 0);
        }
        self.entries.push((name, value));
        proof {
            let new_names = self.names();
            assert(new_names =~= old_names.push(name@));
            assert forall|k: Seq<char>| #![auto] self.lookup(k) == (if k == name@ { Some(value@) } else { old_self.lookup(k) }) by {
                if k == name@ {
                    lemma_position_push_absent(old_names, k, 0);
                } else {
                    lemma_position_in_range(old_names, k, 0);
                    if key_position(old_names, k, 0) is Some {
                        lemma_position_push(old_names, name@, k, 0);
                    } else {
                        lemma_position_in_range(new_names, k, 0);
                        lemma_position_in_range(old_names, k, 0);
                        if key_position(new_names, k, 0) is Some {
                            let j = key_position(new_names, k, 0)->0;
                            assert(j < old_names.len());
                            assert(old_names[j] == k);
                        }
                    }
                }
            }
            assert(self@ =~= old_self@.insert(name@, value@));
        }
    }
}

} // verus!
