//! The days that were chosen in a poll: a set of day keys.
use vstd::prelude::*;
use vstd::string::*;

verus! {

/// A set of day keys. No key is held twice.
///
/// The keys are kept in a list, in the order in which they were chosen: a poll is stored
/// with its keys listed, and a hash set of texts tells a proof nothing of what it holds.
#[derive(Debug)]
pub struct Selection {
    keys: Vec<String>,
}

/// Whether `key` is among the first `n` of `keys`.
pub open spec fn held(keys: Seq<Seq<char>>, key: Seq<char>, n: int) -> bool {
    exists|i: int| 0 <= i < n && i < keys.len() && #[trigger] keys[i] == key
}

/// Whether no text stands twice in `keys`.
pub open spec fn distinct(keys: Seq<Seq<char>>) -> bool {
    forall|i: int, j: int| 0 <= i < j < keys.len() ==> keys[i] != keys[j]
}

/// Without its key at position `i`, a list of distinct keys holds the others and is
/// still distinct.
pub proof fn lemma_without(keys: Seq<Seq<char>>, i: int)
    requires
        distinct(keys),
        0 <= i < keys.len(),
    ensures
        distinct(keys.remove(i)),
        forall|k: Seq<char>|
            held(keys.remove(i), k, keys.len() - 1) <==> (held(keys, k, keys.len() as int) && k
                != keys[i]),
{
    let rest = keys.remove(i);
    assert forall|a: int, b: int| 0 <= a < b < rest.len() implies rest[a] != rest[b] by {
        let a0 = if a < i { a } else { a + 1 };
        let b0 = if b < i { b } else { b + 1 };
        assert(rest[a] == keys[a0]);
        assert(rest[b] == keys[b0]);
    }
    assert forall|k: Seq<char>|
        held(rest, k, keys.len() - 1) <==> (held(keys, k, keys.len() as int) && k
            != keys[i]) by {
        if held(rest, k, keys.len() - 1) {
            let a = choose|a: int| 0 <= a < keys.len() - 1 && a < rest.len() && #[trigger] rest[a] == k;
            let a0 = if a < i { a } else { a + 1 };
            assert(keys[a0] == k);
            if a0 < i {
                assert(keys[a0] != keys[i]);
            } else {
                assert(keys[i] != keys[a0]);
            }
        }
        if held(keys, k, keys.len() as int) && k != keys[i] {
            let b = choose|b: int| 0 <= b < keys.len() && b < keys.len() && #[trigger] keys[b] == k;
            let b1 = if b < i { b } else { b - 1 };
            assert(rest[b1] == k);
        }
    }
}

/// With a key that it did not hold, a list of distinct keys holds that key and the
/// others, and is still distinct.
pub proof fn lemma_with(keys: Seq<Seq<char>>, key: Seq<char>)
    requires
        distinct(keys),
        !held(keys, key, keys.len() as int),
    ensures
        distinct(keys.push(key)),
        forall|k: Seq<char>|
            held(keys.push(key), k, keys.len() as int + 1) <==> (held(keys, k, keys.len() as int) || k
                == key),
{
    let more = keys.push(key);
    assert forall|a: int, b: int| 0 <= a < b < more.len() implies more[a] != more[b] by {
        if b == keys.len() {
            assert(more[a] == keys[a]);
        } else {
            assert(more[a] == keys[a]);
            assert(more[b] == keys[b]);
        }
    }
    assert forall|k: Seq<char>|
        held(more, k, keys.len() as int + 1) <==> (held(keys, k, keys.len() as int) || k == key) by {
        if held(more, k, keys.len() as int + 1) {
            let a = choose|a: int| 0 <= a < keys.len() + 1 && a < more.len() && #[trigger] more[a] == k;
            if a < keys.len() {
                assert(keys[a] == k);
            }
        }
        if held(keys, k, keys.len() as int) {
            let b = choose|b: int| 0 <= b < keys.len() && b < keys.len() && #[trigger] keys[b] == k;
            assert(more[b] == k);
        }
        if k == key {
            assert(more[keys.len() as int] == k);
        }
    }
}

impl View for Selection {
    type V = Set<Seq<char>>;

    closed spec fn view(&self) -> Set<Seq<char>> {
        Set::new(|key: Seq<char>| held(self.keys.deep_view(), key, self.keys.len() as int))
    }
}

impl DeepView for Selection {
    type V = Set<Seq<char>>;

    open spec fn deep_view(&self) -> Set<Seq<char>> {
        self@
    }
}

impl Selection {
    #[verifier::type_invariant]
    spec fn well_formed(self) -> bool {
        distinct(self.keys.deep_view())
    }

    /// The empty selection.
    pub fn new() -> (selection: Selection)
        ensures
            selection@ == Set::<Seq<char>>::empty(),
    {
        let selection = Selection { keys: Vec::new() };
        assert(selection@ =~= Set::<Seq<char>>::empty());
        selection
    }

    fn position(&self, key: &str) -> (r: Option<usize>)
        ensures
            match r {
                Some(i) => i < self.keys.len() && self.keys[i as int]@ == key@,
                None => !self@.contains(key@),
            },
            r is Some <==> self@.contains(key@),
    {
        let wanted = String::from_str(key);
        let mut i: usize = 0;
        while i < self.keys.len()
            invariant
                i <= self.keys.len(),
                wanted@ == key@,
                !held(self.keys.deep_view(), key@, i as int),
            decreases self.keys.len() - i,
        {
            if self.keys[i] == wanted {
                assert(self.keys.deep_view()[i as int] == key@);
                return Some(i);
            }
            i = i + 1;
        }
        None
    }

    /// Whether `key` is chosen.
    pub fn contains(&self, key: &str) -> (r: bool)
        ensures
            r == self@.contains(key@),
    {
        self.position(key).is_some()
    }

    /// Chooses `key` if it is not chosen, and drops it if it is.
    pub fn toggle(&mut self, key: &str)
        ensures
            final(self)@ == if old(self)@.contains(key@) {
                old(self)@.remove(key@)
            } else {
                old(self)@.insert(key@)
            },
    {
        proof {
            use_type_invariant(&*self);
        }
        let ghost before = self.keys.deep_view();
        let found = self.position(key);
        let mut keys = Vec::new();
        std::mem::swap(&mut keys, &mut self.keys);
        match found {
            Some(i) => {
                keys.remove(i);
                proof {
                    assert(before[i as int] == key@);
                    assert(keys.deep_view() =~= before.remove(i as int));
                    lemma_without(before, i as int);
                }
            },
            None => {
                keys.push(String::from_str(key));
                proof {
                    assert(keys.deep_view() =~= before.push(key@));
                    lemma_with(before, key@);
                }
            },
        }
        self.keys = keys;
        proof {
            if found is Some {
                assert(self@ =~= old(self)@.remove(key@));
            } else {
                assert(self@ =~= old(self)@.insert(key@));
            }
        }
    }

    /// The selection of the keys in `keys`; a key that stands there more than once is
    /// chosen once.
    pub fn from_keys(keys: &Vec<String>) -> (selection: Selection)
        ensures
            forall|k: Seq<char>| selection@.contains(k) <==> held(keys.deep_view(), k, keys.len() as int),
    {
        let mut selection = Selection::new();
        let mut i: usize = 0;
        while i < keys.len()
            invariant
                i <= keys.len(),
                forall|k: Seq<char>| selection@.contains(k) <==> held(keys.deep_view(), k, i as int),
            decreases keys.len() - i,
        {
            let ghost before = selection@;
            if !selection.contains(keys[i].as_str()) {
                selection.toggle(keys[i].as_str());
            }
            proof {
                let all = keys.deep_view();
                assert(selection@ == before.insert(all[i as int]));
                assert forall|k: Seq<char>| selection@.contains(k) <==> held(
                    all,
                    k,
                    i + 1,
                ) by {
                    if held(all, k, i + 1) {
                        let a = choose|a: int| 0 <= a < i + 1 && a < all.len() && all[a] == k;
                        if a < i {
                            assert(held(all, k, i as int));
                        }
                    }
                    if selection@.contains(k) {
                        if k == all[i as int] {
                        } else {
                            assert(held(all, k, i as int));
                            let a = choose|a: int| 0 <= a < i && a < all.len() && all[a] == k;
                            assert(all[a] == k);
                        }
                    }
                }
            }
            i = i + 1;
        }
        selection
    }

    /// The chosen keys, each once, in the order in which they were chosen.
    pub fn keys(&self) -> (keys: Vec<String>)
        ensures
            distinct(keys.deep_view()),
            forall|k: Seq<char>| self@.contains(k) <==> held(keys.deep_view(), k, keys.len() as int),
    {
        proof {
            use_type_invariant(self);
        }
        let mut keys: Vec<String> = Vec::new();
        let mut i: usize = 0;
        while i < self.keys.len()
            invariant
                i <= self.keys.len(),
                keys.deep_view() == self.keys.deep_view().take(i as int),
            decreases self.keys.len() - i,
        {
            let key = self.keys[i].clone();
            let ghost listed = keys.deep_view();
            keys.push(key);
            assert(keys.deep_view() =~= listed.push(key@));
            assert(listed.push(key@) =~= self.keys.deep_view().take(i + 1));
            i = i + 1;
        }
        assert(self.keys.deep_view().take(self.keys.len() as int) =~= self.keys.deep_view());
        keys
    }
}

impl Clone for Selection {
    fn clone(&self) -> (copy: Selection)
        ensures
            copy@ == self@,
    {
        proof {
            use_type_invariant(self);
        }
        let keys = self.keys();
        let copy = Selection { keys };
        assert(copy@ =~= self@);
        copy
    }
}

} // verus!
