//! A map keyed by strings that keeps its entries in ascending key order,
//! the order in which a B-tree map walks them.

use vstd::prelude::*;
use vstd::string::StringExecFns;

verus! {

/// Whether `a` comes strictly before `b` in lexicographic order of code points.
pub open spec fn str_lt(a: Seq<char>, b: Seq<char>) -> bool
    decreases a.len(),
{
    if a.len() == 0 {
        b.len() > 0
    } else if b.len() == 0 {
        false
    } else if a[0] != b[0] {
        a[0] < b[0]
    } else {
        str_lt(a.subrange(1, a.len() as int), b.subrange(1, b.len() as int))
    }
}

proof fn lemma_str_lt_irreflexive(a: Seq<char>)
    ensures
        !str_lt(a, a),
    decreases a.len(),
{
    if a.len() > 0 {
        lemma_str_lt_irreflexive(a.subrange(1, a.len() as int));
    }
}

/// `str_lt` is transitive.
pub proof fn lemma_str_lt_transitive(a: Seq<char>, b: Seq<char>, c: Seq<char>)
    requires
        str_lt(a, b),
        str_lt(b, c),
    ensures
        str_lt(a, c),
    decreases a.len(),
{
    if a.len() > 0 && b.len() > 0 && c.len() > 0 && a[0] == b[0] && b[0] == c[0] {
        lemma_str_lt_transitive(
            a.subrange(1, a.len() as int),
            b.subrange(1, b.len() as int),
            c.subrange(1, c.len() as int),
        );
    }
}

/// Two distinct strings are ordered one way or the other.
pub proof fn lemma_str_lt_total(a: Seq<char>, b: Seq<char>)
    ensures
        a == b || str_lt(a, b) || str_lt(b, a),
    decreases a.len(),
{
    if a.len() > 0 && b.len() > 0 && a[0] == b[0] {
        let (ta, tb) = (a.subrange(1, a.len() as int), b.subrange(1, b.len() as int));
        lemma_str_lt_total(ta, tb);
        if ta == tb {
            assert(a =~= seq![a[0]] + ta);
            assert(b =~= seq![b[0]] + tb);
        }
    } else if a.len() == 0 && b.len() == 0 {
        assert(a =~= b);
    } else if a.len() > 0 && b.len() > 0 {
        assert(a[0] != b[0]);

    }
}

/// Whether `a` comes before `b`.
pub fn str_before(a: &Vec<char>, b: &Vec<char>) -> (r: bool)
    ensures
        r == str_lt(a@, b@),
{
    let mut i: usize = 0;
    assert(a@.subrange(0, a@.len() as int) =~= a@);
    assert(b@.subrange(0, b@.len() as int) =~= b@);
    while i < a.len() && i < b.len() && a[i] == b[i]
        invariant
            i <= a@.len(),
            i <= b@.len(),
            a@.subrange(0, i as int) == b@.subrange(0, i as int),
            str_lt(a@, b@) == str_lt(a@.subrange(i as int, a@.len() as int), b@.subrange(i as int, b@.len() as int)),
        decreases a@.len() - i,
    {
        proof {
            let (sa, sb) = (a@.subrange(i as int, a@.len() as int), b@.subrange(i as int, b@.len() as int));
            assert(sa.subrange(1, sa.len() as int) =~= a@.subrange(i + 1, a@.len() as int));
            assert(sb.subrange(1, sb.len() as int) =~= b@.subrange(i + 1, b@.len() as int));
            assert(a@.subrange(0, i + 1) =~= a@.subrange(0, i as int).push(a@[i as int]));
            assert(b@.subrange(0, i + 1) =~= b@.subrange(0, i as int).push(b@[i as int]));
        }
        i = i + 1;
    }
    if i == a.len() {
        i < b.len()
    } else if i == b.len() {
        false
    } else {
        a[i] < b[i]
    }
}

/// Whether the keys of `s` ascend strictly.
pub open spec fn keys_ascending<V>(s: Seq<(String, V)>) -> bool {
    forall|i: int, j: int| 0 <= i < j < s.len() ==> str_lt((#[trigger] s[i]).0@, (#[trigger] s[j]).0@)
}

/// The map that entries hold.
pub open spec fn entries_to_map<V>(s: Seq<(String, V)>) -> Map<Seq<char>, V>
    decreases s.len(),
{
    if s.len() == 0 {
        Map::empty()
    } else {
        entries_to_map(s.drop_last()).insert(s.last().0@, s.last().1)
    }
}

proof fn lemma_ascending_distinct<V>(s: Seq<(String, V)>, i: int, j: int)
    requires
        keys_ascending(s),
        0 <= i < s.len(),
        0 <= j < s.len(),
        i != j,
    ensures
        s[i].0@ != s[j].0@,
{
    if i < j {
        assert(str_lt(s[i].0@, s[j].0@));
        if s[i].0@ == s[j].0@ {
            lemma_str_lt_irreflexive(s[i].0@);
        }
    } else {
        assert(str_lt(s[j].0@, s[i].0@));
        if s[i].0@ == s[j].0@ {
            lemma_str_lt_irreflexive(s[i].0@);
        }
    }
}

proof fn lemma_entries_to_map_index<V>(s: Seq<(String, V)>, i: int)
    requires
        keys_ascending(s),
        0 <= i < s.len(),
    ensures
        entries_to_map(s).contains_key(s[i].0@),
        entries_to_map(s)[s[i].0@] == s[i].1,
    decreases s.len(),
{
    if i < s.len() - 1 {
        let pre = s.drop_last();
        assert(pre[i] == s[i]);
        lemma_entries_to_map_index(pre, i);
        lemma_ascending_distinct(s, i, s.len() - 1);
    }
}

proof fn lemma_entries_to_map_dom<V>(s: Seq<(String, V)>, k: Seq<char>)
    ensures
        entries_to_map(s).contains_key(k) <==> exists|i: int| 0 <= i < s.len() && (#[trigger] s[i]).0@ == k,
    decreases s.len(),
{
    if s.len() > 0 {
        let pre = s.drop_last();
        lemma_entries_to_map_dom(pre, k);
        if entries_to_map(s).contains_key(k) {
            if k != s.last().0@ {
                let i = choose|i: int| 0 <= i < pre.len() && (#[trigger] pre[i]).0@ == k;
                assert(s[i] == pre[i]);
            } else {
                assert(s[s.len() - 1].0@ == k);
            }
        }
        if exists|i: int| 0 <= i < s.len() && (#[trigger] s[i]).0@ == k {
            let i = choose|i: int| 0 <= i < s.len() && (#[trigger] s[i]).0@ == k;
            if i < s.len() - 1 {
                assert(pre[i] == s[i]);
            }
        }
    }
}

/// A string-keyed map whose entries ascend by key.
pub struct StrMap<V> {
    entries: Vec<(String, V)>,
}

impl<V> StrMap<V> {
    #[verifier::type_invariant]
    spec fn inv(self) -> bool {
        keys_ascending(self.entries@)
    }

    /// The entries in ascending key order.
    pub closed spec fn entries(self) -> Seq<(String, V)> {
        self.entries@
    }

    /// The map of keys to values.
    pub open spec fn as_map(self) -> Map<Seq<char>, V> {
        entries_to_map(self.entries())
    }

    /// Facts that hold of every map: its keys ascend, and it holds exactly its entries.
    pub fn lemma_well_formed(&self)
        ensures
            keys_ascending(self.entries()),
            forall|i: int| 0 <= i < self.entries().len() ==> #[trigger] self.as_map().contains_key(self.entries()[i].0@) && self.as_map()[self.entries()[i].0@] == self.entries()[i].1,
            forall|k: Seq<char>| #[trigger] self.as_map().contains_key(k) <==> exists|i: int| 0 <= i < self.entries().len() && (#[trigger] self.entries()[i]).0@ == k,
    {
        proof {
            use_type_invariant(self);
            assert forall|i: int| 0 <= i < self.entries().len() implies #[trigger] self.as_map().contains_key(self.entries()[i].0@) && self.as_map()[self.entries()[i].0@] == self.entries()[i].1 by {
                lemma_entries_to_map_index(self.entries(), i);
            }
            assert forall|k: Seq<char>| #[trigger] self.as_map().contains_key(k) <==> exists|i: int| 0 <= i < self.entries().len() && (#[trigger] self.entries()[i]).0@ == k by {
                lemma_entries_to_map_dom(self.entries(), k);
            }
        }
    }

    /// An empty map.
    pub fn new() -> (m: StrMap<V>)
        ensures
            m.entries().len() == 0,
            m.as_map() == Map::<Seq<char>, V>::empty(),
    {
        StrMap { entries: Vec::new() }
    }

    /// The number of entries.
    pub fn len(&self) -> (n: usize)
        ensures
            n == self.entries().len(),
    {
        self.entries.len()
    }

    /// The entry at position `i` in key order.
    pub fn entry_at(&self, i: usize) -> (e: &(String, V))
        requires
            i < self.entries().len(),
        ensures
            *e == self.entries()[i as int],
    {
        &self.entries[i]
    }

    /// The position of `key`, or where it would go: the number of keys before it.
    fn search(&self, key: &Vec<char>) -> (r: (usize, bool))
        ensures
            r.0 <= self.entries().len(),
            forall|j: int| 0 <= j < r.0 ==> str_lt((#[trigger] self.entries()[j]).0@, key@),
            r.1 ==> r.0 < self.entries().len() && self.entries()[r.0 as int].0@ == key@,
            !r.1 ==> forall|j: int| r.0 <= j < self.entries().len() ==> str_lt(key@, (#[trigger] self.entries()[j]).0@),
    {
        proof {
            use_type_invariant(self);
        }
        let mut i: usize = 0;
        while i < self.entries.len()
            invariant
                i <= self.entries@.len(),
                keys_ascending(self.entries@),
                forall|j: int| 0 <= j < i ==> str_lt((#[trigger] self.entries@[j]).0@, key@),
            decreases self.entries@.len() - i,
        {
            let k = crate::text::chars_of(self.entries[i].0.as_str());
            if !str_before(&k, key) {
                if str_before(key, &k) {
                    proof {
                        assert forall|j: int| i <= j < self.entries@.len() implies str_lt(key@, (#[trigger] self.entries@[j]).0@) by {
                            if j > i {
                                lemma_str_lt_transitive(key@, k@, self.entries@[j].0@);
                            }
                        }
                    }
                    return (i, false);
                } else {
                    proof {
                        lemma_str_lt_total(k@, key@);
                    }
                    return (i, true);
                }
            }
            i = i + 1;
        }
        (i, false)
    }

    /// The position of `key`, if present.
    pub fn position(&self, key: &str) -> (r: Option<usize>)
        ensures
            match r {
                Some(i) => i < self.entries().len() && self.entries()[i as int].0@ == key@
                    && self.as_map().contains_key(key@) && self.as_map()[key@] == self.entries()[i as int].1,
                None => !self.as_map().contains_key(key@),
            },
    {
        self.lemma_well_formed();
        let k = crate::text::chars_of(key);
        let (i, found) = self.search(&k);
        if found {
            Some(i)
        } else {
            proof {
                if self.as_map().contains_key(key@) {
                    let j = choose|j: int| 0 <= j < self.entries().len() && (#[trigger] self.entries()[j]).0@ == key@;
                    if j < i {
                        assert(str_lt(self.entries()[j].0@, key@));
                        lemma_str_lt_irreflexive(key@);
                    } else {
                        assert(str_lt(key@, self.entries()[j].0@));
                        lemma_str_lt_irreflexive(key@);
                    }
                }
            }
            None
        }
    }

    /// The value of `key`, if present.
    pub fn get(&self, key: &str) -> (r: Option<&V>)
        ensures
            match r {
                Some(v) => self.as_map().contains_key(key@) && *v == self.as_map()[key@],
                None => !self.as_map().contains_key(key@),
            },
    {
        self.lemma_well_formed();
        match self.position(key) {
            Some(i) => Some(&self.entries[i].1),
            None => None,
        }
    }

    /// Replaces the value at position `i`.
    pub fn replace_at(&mut self, i: usize, v: V)
        requires
            i < old(self).entries().len(),
        ensures
            final(self).entries() == old(self).entries().update(i as int, (old(self).entries()[i as int].0, v)),
            final(self).as_map() == old(self).as_map().insert(old(self).entries()[i as int].0@, v),
    {
        self.lemma_well_formed();
        let ghost old_entries = self.entries@;
        let mut entries: Vec<(String, V)> = Vec::new();
        std::mem::swap(&mut entries, &mut self.entries);
        let (k, _) = entries.remove(i);
        entries.insert(i, (k, v));
        proof {
            let upd = old_entries.update(i as int, (old_entries[i as int].0, v));
            assert(entries@ =~= upd);
            assert(keys_ascending(upd));
            let m = entries_to_map(old_entries).insert(old_entries[i as int].0@, v);
            lemma_map_matches(upd, m, old_entries, i as int, v);
        }
        self.entries = entries;
    }

    /// Sets `key` to `v`, replacing or inserting in key order.
    pub fn set(&mut self, key: String, v: V)
        ensures
            final(self).as_map() == old(self).as_map().insert(key@, v),
    {
        self.lemma_well_formed();
        let k = crate::text::chars_of(key.as_str());
        let (i, found) = self.search(&k);
        if found {
            self.replace_at(i, v);
        } else {
            let ghost old_entries = self.entries@;
            let mut entries: Vec<(String, V)> = Vec::new();
            std::mem::swap(&mut entries, &mut self.entries);
            entries.insert(i, (key, v));
            proof {
                assert(keys_ascending(entries@)) by {
                    assert forall|a: int, b: int| 0 <= a < b < entries@.len() implies str_lt((#[trigger] entries@[a]).0@, (#[trigger] entries@[b]).0@) by {
                        if b < i {
                            assert(entries@[a] == old_entries[a]);
                            assert(entries@[b] == old_entries[b]);
                        } else if b == i {
                            assert(entries@[a] == old_entries[a]);
                        } else if a == i {
                            assert(entries@[b] == old_entries[b - 1]);
                        } else if a < i {
                            assert(entries@[a] == old_entries[a]);
                            assert(entries@[b] == old_entries[b - 1]);
                        } else {
                            assert(entries@[a] == old_entries[a - 1]);
                            assert(entries@[b] == old_entries[b - 1]);
                        }
                    }
                }
                let m = entries_to_map(old_entries).insert(k@, v);
                assert forall|kk: Seq<char>| (exists|j: int| 0 <= j < entries@.len() && (#[trigger] entries@[j]).0@ == kk) <==> #[trigger] m.contains_key(kk) by {
                    lemma_entries_to_map_dom(old_entries, kk);
                    if exists|j: int| 0 <= j < entries@.len() && (#[trigger] entries@[j]).0@ == kk {
                        let j = choose|j: int| 0 <= j < entries@.len() && (#[trigger] entries@[j]).0@ == kk;
                        if j < i {
                            assert(entries@[j] == old_entries[j]);
                        } else if j > i {
                            assert(entries@[j] == old_entries[j - 1]);
                        }
                    }
                    if m.contains_key(kk) && kk != k@ {
                        let j = choose|j: int| 0 <= j < old_entries.len() && (#[trigger] old_entries[j]).0@ == kk;
                        if j < i {
                            assert(entries@[j] == old_entries[j]);
                        } else {
                            assert(entries@[j + 1] == old_entries[j]);
                        }
                    }
                    if kk == k@ {
                        assert(entries@[i as int].0@ == kk);
                    }
                }
                assert forall|j: int| 0 <= j < entries@.len() implies #[trigger] m.contains_key(entries@[j].0@) && m[entries@[j].0@] == entries@[j].1 by {
                    if j < i {
                        assert(entries@[j] == old_entries[j]);
                        lemma_entries_to_map_index(old_entries, j);
                        assert(str_lt(old_entries[j].0@, k@));
                        if old_entries[j].0@ == k@ {
                            lemma_str_lt_irreflexive(k@);
                        }
                    } else if j > i {
                        assert(entries@[j] == old_entries[j - 1]);
                        lemma_entries_to_map_index(old_entries, j - 1);
                        assert(str_lt(k@, old_entries[j - 1].0@));
                        if old_entries[j - 1].0@ == k@ {
                            lemma_str_lt_irreflexive(k@);
                        }
                    }
                }
                lemma_map_from_entries(entries@, m);
            }
            self.entries = entries;
        }
    }

    /// Removes `key` if present.
    pub fn remove(&mut self, key: &str)
        ensures
            final(self).as_map() == old(self).as_map().remove(key@),
    {
        self.lemma_well_formed();
        match self.position(key) {
            Some(i) => {
                let ghost old_entries = self.entries@;
                let mut entries: Vec<(String, V)> = Vec::new();
                std::mem::swap(&mut entries, &mut self.entries);
                entries.remove(i);
                proof {
                    assert(keys_ascending(entries@)) by {
                        assert forall|a: int, b: int| 0 <= a < b < entries@.len() implies str_lt((#[trigger] entries@[a]).0@, (#[trigger] entries@[b]).0@) by {
                            if b < i {
                                assert(entries@[a] == old_entries[a]);
                                assert(entries@[b] == old_entries[b]);
                            } else if a < i {
                                assert(entries@[a] == old_entries[a]);
                                assert(entries@[b] == old_entries[b + 1]);
                            } else {
                                assert(entries@[a] == old_entries[a + 1]);
                                assert(entries@[b] == old_entries[b + 1]);
                            }
                        }
                    }
                    let m = entries_to_map(old_entries).remove(key@);
                    assert forall|kk: Seq<char>| (exists|j: int| 0 <= j < entries@.len() && (#[trigger] entries@[j]).0@ == kk) <==> #[trigger] m.contains_key(kk) by {
                        lemma_entries_to_map_dom(old_entries, kk);
                        if exists|j: int| 0 <= j < entries@.len() && (#[trigger] entries@[j]).0@ == kk {
                            let j = choose|j: int| 0 <= j < entries@.len() && (#[trigger] entries@[j]).0@ == kk;
                            if j < i {
                                assert(entries@[j] == old_entries[j]);
                                lemma_ascending_distinct(old_entries, j, i as int);
                            } else {
                                assert(entries@[j] == old_entries[j + 1]);
                                lemma_ascending_distinct(old_entries, j + 1, i as int);
                            }
                        }
                        if m.contains_key(kk) {
                            let j = choose|j: int| 0 <= j < old_entries.len() && (#[trigger] old_entries[j]).0@ == kk;
                            if j < i {
                                assert(entries@[j] == old_entries[j]);
                            } else if j > i {
                                assert(entries@[j - 1] == old_entries[j]);
                            }
                        }
                    }
                    assert forall|j: int| 0 <= j < entries@.len() implies #[trigger] m.contains_key(entries@[j].0@) && m[entries@[j].0@] == entries@[j].1 by {
                        if j < i {
                            assert(entries@[j] == old_entries[j]);
                            lemma_entries_to_map_index(old_entries, j);
                            lemma_ascending_distinct(old_entries, j, i as int);
                        } else {
                            assert(entries@[j] == old_entries[j + 1]);
                            lemma_entries_to_map_index(old_entries, j + 1);
                            lemma_ascending_distinct(old_entries, j + 1, i as int);
                        }
                    }
                    lemma_map_from_entries(entries@, m);
                }
                self.entries = entries;
            },
            None => {
                assert(self.as_map().remove(key@) =~= self.as_map());
            },
        }
    }
}

proof fn lemma_map_from_entries<V>(s: Seq<(String, V)>, m: Map<Seq<char>, V>)
    requires
        keys_ascending(s),
        forall|k: Seq<char>| (exists|j: int| 0 <= j < s.len() && (#[trigger] s[j]).0@ == k) <==> #[trigger] m.contains_key(k),
        forall|j: int| 0 <= j < s.len() ==> #[trigger] m.contains_key(s[j].0@) && m[s[j].0@] == s[j].1,
    ensures
        entries_to_map(s) == m,
{
    assert forall|k: Seq<char>| #[trigger] entries_to_map(s).contains_key(k) == m.contains_key(k) by {
        lemma_entries_to_map_dom(s, k);
    }
    assert forall|k: Seq<char>| #[trigger] entries_to_map(s).contains_key(k) implies entries_to_map(s)[k] == m[k] by {
        lemma_entries_to_map_dom(s, k);
        let j = choose|j: int| 0 <= j < s.len() && (#[trigger] s[j]).0@ == k;
        lemma_entries_to_map_index(s, j);
    }
    assert(entries_to_map(s) =~= m);
}

proof fn lemma_map_matches<V>(upd: Seq<(String, V)>, m: Map<Seq<char>, V>, old_entries: Seq<(String, V)>, i: int, v: V)
    requires
        keys_ascending(old_entries),
        0 <= i < old_entries.len(),
        upd == old_entries.update(i, (old_entries[i].0, v)),
        m == entries_to_map(old_entries).insert(old_entries[i].0@, v),
    ensures
        keys_ascending(upd),
        entries_to_map(upd) == m,
{
    assert forall|a: int, b: int| 0 <= a < b < upd.len() implies str_lt((#[trigger] upd[a]).0@, (#[trigger] upd[b]).0@) by {
        assert(upd[a].0 == old_entries[a].0);
        assert(upd[b].0 == old_entries[b].0);
    }
    assert forall|k: Seq<char>| (exists|j: int| 0 <= j < upd.len() && (#[trigger] upd[j]).0@ == k) <==> #[trigger] m.contains_key(k) by {
        lemma_entries_to_map_dom(old_entries, k);
        if exists|j: int| 0 <= j < upd.len() && (#[trigger] upd[j]).0@ == k {
            let j = choose|j: int| 0 <= j < upd.len() && (#[trigger] upd[j]).0@ == k;
            assert(upd[j].0 == old_entries[j].0);
        }
        if m.contains_key(k) && k != old_entries[i].0@ {
            let j = choose|j: int| 0 <= j < old_entries.len() && (#[trigger] old_entries[j]).0@ == k;
            assert(upd[j].0 == old_entries[j].0);
        }
        if k == old_entries[i].0@ {
            assert(upd[i].0@ == k);
        }
    }
    assert forall|j: int| 0 <= j < upd.len() implies #[trigger] m.contains_key(upd[j].0@) && m[upd[j].0@] == upd[j].1 by {
        if j != i {
            assert(upd[j] == old_entries[j]);
            lemma_entries_to_map_index(old_entries, j);
            lemma_ascending_distinct(old_entries, i, j);
        }
    }
    lemma_map_from_entries(upd, m);
}

/// The last entry of ascending entries holds a key that none before it
/// holds, and the entries before it ascend.
pub proof fn lemma_last_key_fresh<V>(s: Seq<(String, V)>)
    requires
        keys_ascending(s),
        s.len() > 0,
    ensures
        keys_ascending(s.drop_last()),
        !entries_to_map(s.drop_last()).contains_key(s.last().0@),
{
    let pre = s.drop_last();
    assert(keys_ascending(pre));
    lemma_entries_to_map_dom(pre, s.last().0@);
    if entries_to_map(pre).contains_key(s.last().0@) {
        let i = choose|i: int| 0 <= i < pre.len() && (#[trigger] pre[i]).0@ == s.last().0@;
        assert(pre[i] == s[i]);
        lemma_ascending_distinct(s, i, s.len() - 1);
    }
}

/// A map built from entries with ascending keys has one key per entry.
pub proof fn lemma_entries_to_map_len<V>(s: Seq<(String, V)>)
    requires
        keys_ascending(s),
    ensures
        entries_to_map(s).dom().finite(),
        entries_to_map(s).dom().len() == s.len(),
    decreases s.len(),
{
    if s.len() > 0 {
        let pre = s.drop_last();
        assert(keys_ascending(pre));
        lemma_entries_to_map_len(pre);
        lemma_entries_to_map_dom(pre, s.last().0@);
        if entries_to_map(pre).contains_key(s.last().0@) {
            let i = choose|i: int| 0 <= i < pre.len() && (#[trigger] pre[i]).0@ == s.last().0@;
            assert(pre[i] == s[i]);
            lemma_ascending_distinct(s, i, s.len() - 1);
        }
        assert(entries_to_map(s).dom() =~= entries_to_map(pre).dom().insert(s.last().0@));
    }
}

impl<V> StrMap<V> {
    /// The number of keys equals the number of entries.
    pub fn lemma_len(&self)
        ensures
            self.as_map().dom().finite(),
            self.as_map().dom().len() == self.entries().len(),
    {
        proof {
            use_type_invariant(self);
            lemma_entries_to_map_len(self.entries());
        }
    }
}

} // verus!
