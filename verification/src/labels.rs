//! Labels attached to docker objects: a map from names to values.

use vstd::prelude::*;

verus! {

/// The value bound to `key` by a list of bindings in which a later binding
/// of a key replaces an earlier one.
pub open spec fn label_lookup(entries: Seq<(Seq<char>, Seq<char>)>, key: Seq<char>) -> Option<Seq<char>>
    decreases entries.len(),
{
    if entries.len() == 0 {
        None
    } else if entries.last().0 == key {
        Some(entries.last().1)
    } else {
        label_lookup(entries.drop_last(), key)
    }
}

/// A set of labels, each name bound to one value.
pub struct Labels {
    entries: Vec<(String, String)>,
}

impl Labels {
    /// The bindings made, oldest first.
    pub closed spec fn bindings(&self) -> Seq<(Seq<char>, Seq<char>)> {
        self.entries.deep_view()
    }

    /// The labels as a map from names to values.
    pub closed spec fn view(&self) -> Map<Seq<char>, Seq<char>> {
        Map::new(
            |k: Seq<char>| label_lookup(self.bindings(), k) is Some,
            |k: Seq<char>| label_lookup(self.bindings(), k)->Some_0,
        )
    }

    /// No label.
    pub fn new() -> (res: Labels)
        ensures
            res.view() == Map::<Seq<char>, Seq<char>>::empty(),
    {
        let res = Labels { entries: Vec::new() };
        assert(res.view() =~= Map::<Seq<char>, Seq<char>>::empty());
        res
    }

    /// Binds `key` to `value`, replacing any value `key` had.
    pub fn insert(&mut self, key: String, value: String)
        ensures
            final(self).view() == old(self).view().insert(key@, value@),
    {
        let ghost old_b = self.bindings();
        self.entries.push((key, value));
        proof {
            let b = self.bindings();
            assert(b.drop_last() =~= old_b);
            assert(b.last() == (key@, value@));
            assert(self.view() =~= old(self).view().insert(key@, value@));
        }
    }

    /// The value bound to `key`, if any.
    pub fn get(&self, key: &str) -> (res: Option<String>)
        ensures
            res.deep_view() == (if self.view().contains_key(key@) {
                Some(self.view()[key@])
            } else {
                None::<Seq<char>>
            }),
    {
        let k = key.to_owned();
        let mut i = self.entries.len();
        assert(self.bindings().subrange(0, i as int) =~= self.bindings());
        while i > 0
            invariant
                i <= self.entries@.len(),
                k@ == key@,
                label_lookup(self.bindings(), key@)
                    == label_lookup(self.bindings().subrange(0, i as int), key@),
            decreases i,
        {
            let ghost pre = self.bindings().subrange(0, i as int);
            assert(pre.drop_last() =~= self.bindings().subrange(0, i - 1));
            assert(pre.last() == self.bindings()[i - 1]);
            if self.entries[i - 1].0 == k {
                return Some(self.entries[i - 1].1.clone());
            }
            i = i - 1;
        }
        None
    }

    /// The bindings in the order they were made; a later binding of a name
    /// replaces an earlier one, so inserting them in order into a map gives
    /// these labels.
    pub fn bindings_in_order(&self) -> (res: Vec<(String, String)>)
        ensures
            forall|k: Seq<char>| #[trigger] label_lookup(res.deep_view(), k) == (if self.view().contains_key(k) {
                Some(self.view()[k])
            } else {
                None::<Seq<char>>
            }),
    {
        let mut res: Vec<(String, String)> = Vec::new();
        let mut i: usize = 0;
        while i < self.entries.len()
            invariant
                i <= self.entries@.len(),
                res.deep_view() =~= self.bindings().subrange(0, i as int),
                res@.len() == i,
            decreases self.entries@.len() - i,
        {
            let k = self.entries[i].0.clone();
            let v = self.entries[i].1.clone();
            let ghost prev = res@;
            let ghost prev_dv = res.deep_view();
            res.push((k, v));
            assert forall|j: int| 0 <= j <= i implies res.deep_view()[j] == self.bindings()[j] by {
                if j < i {
                    assert(res@[j] == prev[j]);
                    assert(res.deep_view()[j] == prev_dv[j]);
                } else {
                    assert(res@[j] == (k, v));
                    assert(self.bindings()[j] == self.entries@[j].deep_view());
                }
            }
            assert(res.deep_view() =~= self.bindings().subrange(0, i + 1));
            i = i + 1;
        }
        assert(res.deep_view() =~= self.bindings());
        res
    }
}

/// Reading a label after binding it gives back the value bound, and
/// binding one name leaves every other name as it was: `after` is what
/// `insert(k, v)` makes of `before`.
pub proof fn law_label_read_after_write(before: Labels, after: Labels, k: Seq<char>, v: Seq<char>, other: Seq<char>)
    requires
        after.view() == before.view().insert(k, v),
        other != k,
    ensures
        after.view().contains_key(k),
        after.view()[k] == v,
        after.view().contains_key(other) == before.view().contains_key(other),
        before.view().contains_key(other) ==> after.view()[other] == before.view()[other],
{
}

} // verus!
