use vstd::prelude::*;

verus! {

/// The keys held down, as the main thread records them: a press appends the
/// key (so a key pressed twice is held twice) and a release drops every
/// copy of it.
pub struct KeyState {
    keys: Vec<String>,
}

/// The test that keeps every key but `key`.
pub open spec fn other_than(key: Seq<char>) -> spec_fn(Seq<char>) -> bool {
    |k: Seq<char>| k != key
}

/// The held keys after `key` went down (`pressed`) or up.
pub open spec fn held_after(keys: Seq<Seq<char>>, key: Seq<char>, pressed: bool) -> Seq<Seq<char>> {
    if pressed {
        keys.push(key)
    } else {
        keys.filter(other_than(key))
    }
}

impl View for KeyState {
    type V = Seq<Seq<char>>;

    closed spec fn view(&self) -> Seq<Seq<char>> {
        self.keys@.map_values(|k: String| k@)
    }
}

impl KeyState {
    /// No key held.
    pub fn new() -> (s: KeyState)
        ensures
            s@ == Seq::<Seq<char>>::empty(),
    {
        let s = KeyState { keys: Vec::new() };
        assert(s@ =~= Seq::<Seq<char>>::empty());
        s
    }

    /// Records that `key` went down (`pressed`) or up.
    pub fn input(&mut self, key: String, pressed: bool)
        ensures
            final(self)@ == held_after(old(self)@, key@, pressed),
    {
        if pressed {
            self.keys.push(key);
            assert(self@ =~= old(self)@.push(key@));
        } else {
            let ghost pred = other_than(key@);
            let ghost before = old(self)@;
            let mut kept: Vec<String> = Vec::new();
            let n = self.keys.len();
            let mut i: usize = 0;
            while i < n
                invariant
                    n == self.keys@.len(),
                    i <= n,
                    before == self.keys@.map_values(|k: String| k@),
                    pred == other_than(key@),
                    kept@.map_values(|k: String| k@) == before.take(i as int).filter(pred),
                decreases n - i,
            {
                proof {
                    assert(before.take(i + 1) =~= before.take(i as int).push(before[i as int]));
                    before.take(i as int).lemma_filter_push(before[i as int], pred);
                }
                let same = self.keys[i].eq(&key);
                assert(before[i as int] == self.keys@[i as int]@);
                if !same {
                    let ghost prev = kept@;
                    let copy = self.keys[i].clone();
                    kept.push(copy);
                    assert(kept@.map_values(|k: String| k@) =~= prev.map_values(|k: String| k@).push(before[i as int]));
                } else {
                    assert(!pred(before[i as int]));
                }
                i = i + 1;
            }
            assert(before.take(n as int) =~= before);
            self.keys = kept;
        }
    }

    /// Whether `key` is held.
    pub fn is_held(&self, key: &String) -> (b: bool)
        ensures
            b == self@.contains(key@),
    {
        let n = self.keys.len();
        let mut i: usize = 0;
        while i < n
            invariant
                n == self.keys@.len(),
                i <= n,
                forall|j: int| 0 <= j < i ==> self@[j] != key@,
            decreases n - i,
        {
            if self.keys[i].eq(key) {
                assert(self@[i as int] == key@);
                return true;
            }
            i = i + 1;
        }
        proof {
            if self@.contains(key@) {
                let k = choose|k: int| 0 <= k < self@.len() && self@[k] == key@;
                assert(self@[k] != key@);
            }
        }
        false
    }
}

/// Law: a key reads as held right after it went down.
pub proof fn law_held_after_press(keys: Seq<Seq<char>>, key: Seq<char>)
    ensures
        held_after(keys, key, true).contains(key),
{
    assert(held_after(keys, key, true)[keys.len() as int] == key);
}

/// Law: a key reads as not held right after it went up, however often it
/// went down before.
pub proof fn law_released_after_release(keys: Seq<Seq<char>>, key: Seq<char>)
    ensures
        !held_after(keys, key, false).contains(key),
{
    let pred = other_than(key);
    broadcast use vstd::seq_lib::group_filter_ensures;
    if held_after(keys, key, false).contains(key) {
        let i = choose|i: int| 0 <= i < keys.filter(pred).len() && keys.filter(pred)[i] == key;
        assert(pred(keys.filter(pred)[i]));
    }
}

/// Law: an input on one key leaves whether any other key is held unchanged.
pub proof fn law_input_leaves_other_keys(keys: Seq<Seq<char>>, key: Seq<char>, other: Seq<char>, pressed: bool)
    requires
        other != key,
    ensures
        held_after(keys, key, pressed).contains(other) == keys.contains(other),
{
    let pred = other_than(key);
    broadcast use vstd::seq_lib::group_filter_ensures;
    if pressed {
        if keys.contains(other) {
            let i = choose|i: int| 0 <= i < keys.len() && keys[i] == other;
            assert(keys.push(key)[i] == other);
        }
        if keys.push(key).contains(other) {
            let i = choose|i: int| 0 <= i < keys.push(key).len() && keys.push(key)[i] == other;
            assert(keys[i] == other);
        }
    } else {
        if keys.contains(other) {
            let i = choose|i: int| 0 <= i < keys.len() && keys[i] == other;
            assert(pred(keys[i]));
            keys.lemma_filter_contains(pred, i);
        }
        if keys.filter(pred).contains(other) {
            keys.lemma_filter_contains_rev(pred, other);
        }
    }
}

/// Law: pressing a key that is not held and releasing it again restores the
/// held keys exactly.
pub proof fn law_release_undoes_press(keys: Seq<Seq<char>>, key: Seq<char>)
    requires
        !keys.contains(key),
    ensures
        held_after(held_after(keys, key, true), key, false) == keys,
{
    let pred = other_than(key);
    keys.lemma_filter_push(key, pred);
    lemma_filter_keeps_all(keys, key);
}

proof fn lemma_filter_keeps_all(keys: Seq<Seq<char>>, key: Seq<char>)
    requires
        !keys.contains(key),
    ensures
        keys.filter(other_than(key)) == keys,
    decreases keys.len(),
{
    let pred = other_than(key);
    if keys.len() > 0 {
        let rest = keys.drop_last();
        assert(!rest.contains(key)) by {
            if rest.contains(key) {
                let i = choose|i: int| 0 <= i < rest.len() && rest[i] == key;
                assert(keys[i] == key);
            }
        }
        lemma_filter_keeps_all(rest, key);
        assert(keys.last() != key) by {
            assert(keys[keys.len() - 1] == keys.last());
        }
        rest.lemma_filter_push(keys.last(), pred);
        assert(rest.push(keys.last()) =~= keys);
    } else {
        reveal(Seq::filter);
        assert(keys.filter(pred) =~= keys);
    }
}

} // verus!
