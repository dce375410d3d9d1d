use vstd::prelude::*;

verus! {

/// The map that a sequence of `(key, value)` entries denotes when the
/// entries are applied in order, a later entry overriding an earlier one.
pub open spec fn entries_map(entries: Seq<(String, String)>) -> Map<Seq<char>, Seq<char>>
    decreases entries.len(),
{
    if entries.len() == 0 {
        Map::empty()
    } else {
        let last = entries.last();
        entries_map(entries.drop_last()).insert(last.0@, last.1@)
    }
}

/// No key occurs twice among the entries.
pub open spec fn keys_distinct(entries: Seq<(String, String)>) -> bool {
    forall|i: int, j: int|
        0 <= i < entries.len() && 0 <= j < entries.len() && i != j ==> #[trigger] entries[i].0@
            != #[trigger] entries[j].0@
}

/// A key is in the denoted map exactly when some entry carries it.
pub proof fn lemma_entries_map_dom(entries: Seq<(String, String)>, key: Seq<char>)
    ensures
        entries_map(entries).dom().contains(key) <==> exists|i: int|
            0 <= i < entries.len() && #[trigger] entries[i].0@ == key,
    decreases entries.len(),
{
    if entries.len() > 0 {
        let prefix = entries.drop_last();
        lemma_entries_map_dom(prefix, key);
        if entries_map(entries).dom().contains(key) {
            if key != entries.last().0@ {
                let i = choose|i: int| 0 <= i < prefix.len() && #[trigger] prefix[i].0@ == key;
                assert(entries[i].0@ == key);
            } else {
                assert(entries[entries.len() - 1].0@ == key);
            }
        } else {
            assert forall|i: int| 0 <= i < entries.len() implies #[trigger] entries[i].0@ != key by {
                if i < entries.len() - 1 {
                    assert(prefix[i] == entries[i]);
                }
            }
        }
    }
}

/// With distinct keys, the value of a key is that of the entry carrying it.
pub proof fn lemma_entries_map_value(entries: Seq<(String, String)>, i: int)
    requires
        keys_distinct(entries),
        0 <= i < entries.len(),
    ensures
        entries_map(entries).dom().contains(entries[i].0@),
        entries_map(entries)[entries[i].0@] == entries[i].1@,
    decreases entries.len(),
{
    let prefix = entries.drop_last();
    if i < entries.len() - 1 {
        assert(prefix[i] == entries[i]);
        assert(keys_distinct(prefix)) by {
            assert forall|a: int, b: int|
                0 <= a < prefix.len() && 0 <= b < prefix.len() && a != b implies #[trigger] prefix[a].0@
                != #[trigger] prefix[b].0@ by {
                assert(prefix[a] == entries[a]);
                assert(prefix[b] == entries[b]);
            }
        }
        lemma_entries_map_value(prefix, i);
        assert(entries[i].0@ != entries[entries.len() - 1].0@);
    }
}

/// Replacing the value of an entry whose key occurs once updates the map at that key.
pub proof fn lemma_entries_map_update(entries: Seq<(String, String)>, i: int, entry: (String, String))
    requires
        keys_distinct(entries),
        0 <= i < entries.len(),
        entry.0@ == entries[i].0@,
    ensures
        keys_distinct(entries.update(i, entry)),
        entries_map(entries.update(i, entry)) == entries_map(entries).insert(entry.0@, entry.1@),
{
    let updated = entries.update(i, entry);
    assert(keys_distinct(updated)) by {
        assert forall|a: int, b: int|
            0 <= a < updated.len() && 0 <= b < updated.len() && a != b implies #[trigger] updated[a].0@
            != #[trigger] updated[b].0@ by {
            assert(entries[a].0@ != entries[b].0@);
        }
    }
    let lhs = entries_map(updated);
    let rhs = entries_map(entries).insert(entry.0@, entry.1@);
    assert forall|k: Seq<char>| lhs.dom().contains(k) <==> rhs.dom().contains(k) by {
        lemma_entries_map_dom(updated, k);
        lemma_entries_map_dom(entries, k);
        if exists|j: int| 0 <= j < entries.len() && #[trigger] entries[j].0@ == k {
            let j = choose|j: int| 0 <= j < entries.len() && #[trigger] entries[j].0@ == k;
            assert(updated[j].0@ == k);
        }
        if exists|j: int| 0 <= j < updated.len() && #[trigger] updated[j].0@ == k {
            let j = choose|j: int| 0 <= j < updated.len() && #[trigger] updated[j].0@ == k;
            assert(entries[j].0@ == k);
        }
    }
    assert forall|k: Seq<char>| #[trigger] lhs.dom().contains(k) implies lhs[k] == rhs[k] by {
        lemma_entries_map_dom(updated, k);
        let j = choose|j: int| 0 <= j < updated.len() && #[trigger] updated[j].0@ == k;
        lemma_entries_map_value(updated, j);
        if j != i {
            assert(entries[j] == updated[j]);
            lemma_entries_map_value(entries, j);
        }
    }
    assert(lhs =~= rhs);
}

/// A set of string-valued settings, each key present at most once.
#[derive(Debug)]
pub struct PropertyMap {
    entries: Vec<(String, String)>,
}

impl View for PropertyMap {
    type V = Map<Seq<char>, Seq<char>>;

    closed spec fn view(&self) -> Map<Seq<char>, Seq<char>> {
        entries_map(self.entries@)
    }
}

impl PropertyMap {
    /// No key has two entries.
    pub closed spec fn wf(self) -> bool {
        keys_distinct(self.entries@)
    }

    /// The entries in the order in which they were first inserted.
    pub closed spec fn entry_seq(self) -> Seq<(String, String)> {
        self.entries@
    }

    /// Creates an empty map.
    pub fn new() -> (m: PropertyMap)
        ensures
            m.wf(),
            m@ == Map::<Seq<char>, Seq<char>>::empty(),
            m.entry_seq().len() == 0,
    {
        PropertyMap { entries: Vec::new() }
    }

    /// Sets `key` to `value`, replacing any earlier value of `key`.
    pub fn insert(&mut self, key: String, value: String)
        requires
            old(self).wf(),
        ensures
            final(self).wf(),
            final(self)@ == old(self)@.insert(key@, value@),
    {
        let n = self.entries.len();
        let mut i: usize = 0;
        while i < n
            invariant
                n == self.entries.len(),
                0 <= i <= n,
                keys_distinct(self.entries@),
                self.entries@ == old(self).entries@,
                forall|j: int| 0 <= j < i ==> #[trigger] self.entries@[j].0@ != key@,
            decreases n - i,
        {
            if self.entries[i].0 == key {
                proof {
                    lemma_entries_map_update(self.entries@, i as int, (key, value));
                }
                self.entries.set(i, (key, value));
                return;
            }
            i = i + 1;
        }
        proof {
            let pushed = self.entries@.push((key, value));
            assert(pushed.drop_last() =~= self.entries@);
            assert(keys_distinct(pushed)) by {
                assert forall|a: int, b: int|
                    0 <= a < pushed.len() && 0 <= b < pushed.len() && a != b implies #[trigger] pushed[a].0@
                    != #[trigger] pushed[b].0@ by {
                    if a < n && b < n {
                        assert(pushed[a] == self.entries@[a]);
                        assert(pushed[b] == self.entries@[b]);
                    } else if a < n {
                        assert(pushed[a] == self.entries@[a]);
                    } else {
                        assert(pushed[b] == self.entries@[b]);
                    }
                }
            }
        }
        self.entries.push((key, value));
        proof {
            assert(self.entries@.drop_last() =~= old(self).entries@);
        }
    }

    /// The value of `key`, if it is set.
    pub fn get(&self, key: &String) -> (r: Option<&String>)
        requires
            self.wf(),
        ensures
            match r {
                Some(v) => self@.dom().contains(key@) && self@[key@] == v@,
                None => !self@.dom().contains(key@),
            },
    {
        let n = self.entries.len();
        let mut i: usize = 0;
        while i < n
            invariant
                n == self.entries.len(),
                0 <= i <= n,
                keys_distinct(self.entries@),
                forall|j: int| 0 <= j < i ==> #[trigger] self.entries@[j].0@ != key@,
            decreases n - i,
        {
            if self.entries[i].0 == *key {
                proof {
                    lemma_entries_map_value(self.entries@, i as int);
                }
                return Some(&self.entries[i].1);
            }
            i = i + 1;
        }
        proof {
            lemma_entries_map_dom(self.entries@, key@);
        }
        None
    }

    /// The number of keys that are set.
    pub fn len(&self) -> (n: usize)
        requires
            self.wf(),
        ensures
            n == self.entry_seq().len(),
            n == self@.dom().len(),
    {
        proof {
            lemma_entries_map_len(self.entries@);
        }
        self.entries.len()
    }

    /// Whether no key is set.
    pub fn is_empty(&self) -> (b: bool)
        requires
            self.wf(),
        ensures
            b <==> self@ == Map::<Seq<char>, Seq<char>>::empty(),
    {
        proof {
            lemma_entries_map_len(self.entries@);
            if self.entries@.len() > 0 {
                lemma_entries_map_value(self.entries@, 0);
            }
        }
        self.entries.len() == 0
    }

    /// The `index`-th entry, in the order of first insertion.
    pub fn entry_at(&self, index: usize) -> (e: (&String, &String))
        requires
            self.wf(),
            index < self.entry_seq().len(),
        ensures
            *e.0 == self.entry_seq()[index as int].0,
            *e.1 == self.entry_seq()[index as int].1,
            self@.dom().contains(e.0@),
            self@[e.0@] == e.1@,
    {
        proof {
            lemma_entries_map_value(self.entries@, index as int);
        }
        (&self.entries[index].0, &self.entries[index].1)
    }
}

/// The map is the one its entries denote, and its entries carry distinct keys.
pub proof fn lemma_view_is_entries_map(m: PropertyMap)
    requires
        m.wf(),
    ensures
        m@ == entries_map(m.entry_seq()),
        keys_distinct(m.entry_seq()),
{
}

/// With distinct keys, the map has one key per entry.
pub proof fn lemma_entries_map_len(entries: Seq<(String, String)>)
    requires
        keys_distinct(entries),
    ensures
        entries_map(entries).dom().finite(),
        entries_map(entries).dom().len() == entries.len(),
    decreases entries.len(),
{
    if entries.len() > 0 {
        let prefix = entries.drop_last();
        assert(keys_distinct(prefix)) by {
            assert forall|a: int, b: int|
                0 <= a < prefix.len() && 0 <= b < prefix.len() && a != b implies #[trigger] prefix[a].0@
                != #[trigger] prefix[b].0@ by {
                assert(prefix[a] == entries[a]);
                assert(prefix[b] == entries[b]);
            }
        }
        lemma_entries_map_len(prefix);
        let last = entries.last().0@;
        lemma_entries_map_dom(prefix, last);
        if entries_map(prefix).dom().contains(last) {
            let i = choose|i: int| 0 <= i < prefix.len() && #[trigger] prefix[i].0@ == last;
            assert(prefix[i] == entries[i]);
            assert(entries[i].0@ != entries[entries.len() - 1].0@);
        }
    }
}

} // verus!
