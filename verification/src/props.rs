//! Key/value property tables (the `KEY=VALUE` outputs of blkid, udev and
//! os-release): inserting an existing key replaces its value.

use vstd::prelude::*;

use crate::text::{chars_eq, chars_of};

verus! {

/// A table of text properties, kept as the history of its insertions
/// (the latest value of a key is the one the table holds).
#[derive(Debug, Clone)]
pub struct PropertyMap {
    entries: Vec<(String, String)>,
}

pub open spec fn entries_map(e: Seq<(String, String)>) -> Map<Seq<char>, Seq<char>>
    decreases e.len(),
{
    if e.len() == 0 {
        Map::empty()
    } else {
        entries_map(e.drop_last()).insert(e.last().0@, e.last().1@)
    }
}

impl PropertyMap {
    /// The table as a map from key to value.
    pub closed spec fn view(&self) -> Map<Seq<char>, Seq<char>> {
        entries_map(self.entries@)
    }

    pub fn new() -> (m: Self)
        ensures
            m.view() == Map::<Seq<char>, Seq<char>>::empty(),
    {
        PropertyMap { entries: Vec::new() }
    }

    /// Inserts or replaces a property.
    pub fn insert(&mut self, key: String, value: String)
        ensures
            final(self).view() == old(self).view().insert(key@, value@),
    {
        let ghost before = self.entries@;
        self.entries.push((key, value));
        assert(self.entries@.drop_last() =~= before);
    }

    /// The value of a key.
    pub fn get(&self, key: &str) -> (r: Option<&String>)
        ensures
            r matches Some(v) ==> self.view().contains_key(key@) && self.view()[key@] == v@,
            r is None ==> !self.view().contains_key(key@),
    {
        let kc = chars_of(key);
        let mut i: usize = self.entries.len();
        while i > 0
            invariant
                i <= self.entries@.len(),
                kc@ == key@,
                forall|k: int| i <= k < self.entries@.len() ==> #[trigger] self.entries@[k].0@ != key@,
            decreases i,
        {
            let k = chars_of(self.entries[i - 1].0.as_str());
            if chars_eq(k.as_slice(), kc.as_slice()) {
                proof {
                    lemma_untouched_suffix(self.entries@, i as int, key@);
                    let t = self.entries@.take(i as int);
                    assert(t.drop_last() =~= self.entries@.take(i - 1));
                }
                return Some(&self.entries[i - 1].1);
            }
            i -= 1;
        }
        proof {
            lemma_untouched_suffix(self.entries@, 0, key@);
            assert(self.entries@.take(0) =~= Seq::<(String, String)>::empty());
        }
        None
    }
}

/// Entries after position `i` that do not mention `key` leave its value as
/// the first `i` entries set it.
proof fn lemma_untouched_suffix(e: Seq<(String, String)>, i: int, key: Seq<char>)
    requires
        0 <= i <= e.len(),
        forall|k: int| i <= k < e.len() ==> #[trigger] e[k].0@ != key,
    ensures
        entries_map(e).contains_key(key) == entries_map(e.take(i)).contains_key(key),
        entries_map(e.take(i)).contains_key(key) ==> entries_map(e)[key] == entries_map(e.take(i))[key],
    decreases e.len() - i,
{
    if i == e.len() {
        assert(e.take(i) =~= e);
    } else {
        let d = e.drop_last();
        lemma_untouched_suffix(d, i, key);
        assert(d.take(i) =~= e.take(i));
    }
}

} // verus!
