//! The table of peers the node currently knows, from peer id to the name
//! shown for it, and the sorted list of names that the peer pane shows.

use vstd::prelude::*;
use crate::text::{lex_le, lex_less_or_equal, lemma_lex_total, lemma_lex_transitive};

verus! {

broadcast use vstd::seq_lib::group_to_multiset_ensures;

/// A table entry as plain text: peer id and display name.
pub type EntryView = (Seq<char>, Seq<char>);

/// The map that a list of entries describes; a later entry for the same id
/// wins, though the table never holds two.
pub open spec fn table_map(s: Seq<EntryView>) -> Map<Seq<char>, Seq<char>>
    decreases s.len(),
{
    if s.len() == 0 {
        Map::empty()
    } else {
        table_map(s.drop_last()).insert(s.last().0, s.last().1)
    }
}

/// No peer id occurs twice.
pub open spec fn distinct_ids(s: Seq<EntryView>) -> bool {
    forall|i: int, j: int| 0 <= i < j < s.len() ==> s[i].0 != s[j].0
}

/// The id of an entry is in the map exactly when some entry carries it.
pub proof fn lemma_table_map_dom(s: Seq<EntryView>, k: Seq<char>)
    ensures
        table_map(s).contains_key(k) <==> exists|i: int| 0 <= i < s.len() && s[i].0 == k,
    decreases s.len(),
{
    if s.len() > 0 {
        lemma_table_map_dom(s.drop_last(), k);
        if table_map(s.drop_last()).contains_key(k) {
            let i = choose|i: int| 0 <= i < s.drop_last().len() && s.drop_last()[i].0 == k;
            assert(s[i].0 == k);
        }
        if exists|i: int| 0 <= i < s.len() && s[i].0 == k {
            let i = choose|i: int| 0 <= i < s.len() && s[i].0 == k;
            if i < s.len() - 1 {
                assert(s.drop_last()[i].0 == k);
            }
        }
    }
}

/// With distinct ids, every entry is found in the map under its id.
pub proof fn lemma_table_map_entry(s: Seq<EntryView>, i: int)
    requires
        distinct_ids(s),
        0 <= i < s.len(),
    ensures
        table_map(s).contains_key(s[i].0),
        table_map(s)[s[i].0] == s[i].1,
    decreases s.len(),
{
    if i < s.len() - 1 {
        lemma_table_map_entry(s.drop_last(), i);
    }
}

/// Replacing the name of an entry is inserting into the map.
pub proof fn lemma_table_map_update(s: Seq<EntryView>, i: int, v: Seq<char>)
    requires
        distinct_ids(s),
        0 <= i < s.len(),
    ensures
        table_map(s.update(i, (s[i].0, v))) == table_map(s).insert(s[i].0, v),
    decreases s.len(),
{
    let k = s[i].0;
    let t = s.update(i, (k, v));
    if i == s.len() - 1 {
        assert(t.drop_last() =~= s.drop_last());
        assert(table_map(t) =~= table_map(s).insert(k, v));
    } else {
        assert(t.drop_last() =~= s.drop_last().update(i, (k, v)));
        lemma_table_map_update(s.drop_last(), i, v);
        assert(s.last().0 != k);
        assert(table_map(t) =~= table_map(s).insert(k, v));
    }
}

/// Dropping an entry is removing its id from the map.
pub proof fn lemma_table_map_remove(s: Seq<EntryView>, i: int)
    requires
        distinct_ids(s),
        0 <= i < s.len(),
    ensures
        table_map(s.remove(i)) == table_map(s).remove(s[i].0),
    decreases s.len(),
{
    let k = s[i].0;
    if i == s.len() - 1 {
        assert(s.remove(i) =~= s.drop_last());
        lemma_table_map_dom(s.drop_last(), k);
        assert(!table_map(s.drop_last()).contains_key(k));
        assert(table_map(s.remove(i)) =~= table_map(s).remove(k));
    } else {
        assert(s.remove(i) =~= s.drop_last().remove(i).push(s.last()));
        assert(s.remove(i).drop_last() =~= s.drop_last().remove(i));
        lemma_table_map_remove(s.drop_last(), i);
        assert(s.last().0 != k);
        assert(table_map(s.remove(i)) =~= table_map(s).remove(k));
    }
}

/// Texts in non-decreasing code point order.
pub open spec fn lex_sorted(s: Seq<Seq<char>>) -> bool {
    forall|i: int, j: int| 0 <= i < j < s.len() ==> lex_le(s[i], s[j])
}

/// The texts of a list of strings.
pub open spec fn texts(v: Seq<String>) -> Seq<Seq<char>> {
    v.map_values(|s: String| s@)
}

/// Where to insert `x` into sorted `s` to keep it sorted: after every
/// element that orders before it or equal to it.
proof fn lemma_sorted_insert(s: Seq<Seq<char>>, p: int, x: Seq<char>)
    requires
        lex_sorted(s),
        0 <= p <= s.len(),
        forall|q: int| 0 <= q < p ==> lex_le(s[q], x),
        p < s.len() ==> !lex_le(s[p], x),
    ensures
        lex_sorted(s.insert(p, x)),
{
    let t = s.insert(p, x);
    if p < s.len() {
        lemma_lex_total(s[p], x);
    }
    assert forall|i: int, j: int| 0 <= i < j < t.len() implies lex_le(t[i], t[j]) by {
        if j < p {
            assert(t[i] == s[i] && t[j] == s[j]);
        } else if j == p {
            assert(t[i] == s[i]);
        } else if i < p {
            assert(t[i] == s[i] && t[j] == s[j - 1]);
            lemma_lex_transitive(s[i], x, s[p]);
            if j - 1 > p {
                lemma_lex_transitive(s[i], s[p], s[j - 1]);
            }
        } else if i == p {
            assert(t[j] == s[j - 1]);
            if j - 1 > p {
                lemma_lex_transitive(x, s[p], s[j - 1]);
            }
        } else {
            assert(t[i] == s[i - 1] && t[j] == s[j - 1]);
        }
    }
}

/// Entries as plain text.
pub open spec fn entry_views(v: Seq<(String, String)>) -> Seq<EntryView> {
    v.map_values(|e: (String, String)| (e.0@, e.1@))
}

/// The peers the node knows, each with the name it is shown under.
pub struct PeerTable {
    entries: Vec<(String, String)>,
}

impl PeerTable {
    /// The entries as plain text, in the order they were first added.
    pub closed spec fn entries_view(self) -> Seq<EntryView> {
        entry_views(self.entries@)
    }

    /// No peer id is recorded twice.
    #[verifier::type_invariant]
    pub closed spec fn well_formed(self) -> bool {
        distinct_ids(self.entries_view())
    }

    /// The ids of all known peers, in table order.
    pub closed spec fn ids(self) -> Seq<Seq<char>> {
        self.entries_view().map_values(|e: EntryView| e.0)
    }

    /// The names of all known peers, one per peer, in table order.
    pub closed spec fn names(self) -> Seq<Seq<char>> {
        self.entries_view().map_values(|e: EntryView| e.1)
    }
}

impl View for PeerTable {
    type V = Map<Seq<char>, Seq<char>>;

    open spec fn view(&self) -> Map<Seq<char>, Seq<char>> {
        table_map(self.entries_view())
    }
}

impl PeerTable {
    /// An empty table.
    pub fn new() -> (t: PeerTable)
        ensures
            t@ == Map::<Seq<char>, Seq<char>>::empty(),
            t.names().len() == 0,
    {
        let t = PeerTable { entries: Vec::new() };
        assert(t.entries_view() =~= Seq::<EntryView>::empty());
        t
    }

    /// Each entry `i` pairs the id `ids()[i]` with the name `names()[i]`:
    /// every known peer appears exactly once, under the name the map holds.
    pub proof fn lemma_names(self)
        requires
            self.well_formed(),
        ensures
            self.names().len() == self.ids().len(),
            self.ids().len() == self@.dom().len(),
            forall|i: int, j: int| 0 <= i < j < self.ids().len() ==> self.ids()[i] != self.ids()[j],
            forall|i: int|
                0 <= i < self.ids().len() ==> self@.contains_key(#[trigger] self.ids()[i])
                    && self@[self.ids()[i]] == self.names()[i],
            forall|k: Seq<char>|
                self@.contains_key(k) ==> exists|i: int| 0 <= i < self.ids().len() && self.ids()[i] == k,
    {
        let s = self.entries_view();
        assert forall|i: int| 0 <= i < self.ids().len() implies self@.contains_key(#[trigger] self.ids()[i])
            && self@[self.ids()[i]] == self.names()[i] by {
            lemma_table_map_entry(s, i);
        }
        assert forall|k: Seq<char>| self@.contains_key(k) implies exists|i: int|
            0 <= i < self.ids().len() && self.ids()[i] == k by {
            lemma_table_map_dom(s, k);
            let i = choose|i: int| 0 <= i < s.len() && s[i].0 == k;
            assert(self.ids()[i] == k);
        }
        lemma_ids_dom(s);
    }

    /// The position of the entry with this id, if there is one.
    fn find(&self, id: &String) -> (r: Option<usize>)
        ensures
            match r {
                Some(i) => i < self.entries_view().len() && self.entries_view()[i as int].0 == id@,
                None => forall|i: int| 0 <= i < self.entries_view().len() ==> self.entries_view()[i].0 != id@,
            },
    {
        for i in 0..self.entries.len()
            invariant
                forall|j: int| 0 <= j < i ==> self.entries_view()[j].0 != id@,
        {
            if self.entries[i].0 == *id {
                return Some(i);
            }
        }
        None
    }

    /// Records that peer `id` is shown as `name`, replacing any earlier name.
    pub fn insert(&mut self, id: String, name: String)
        ensures
            final(self)@ == old(self)@.insert(id@, name@),
    {
        proof { use_type_invariant(&*self); }
        let pos = self.find(&id);
        let ghost s = self.entries_view();
        let mut entries: Vec<(String, String)> = Vec::new();
        std::mem::swap(&mut entries, &mut self.entries);
        assert(entry_views(entries@) == s);
        match pos {
            Some(i) => {
                let ghost v = name@;
                entries.remove(i);
                entries.insert(i, (id, name));
                proof {
                    let t = entry_views(entries@);
                    assert(t =~= s.update(i as int, (s[i as int].0, v)));
                    assert forall|a: int, b: int| 0 <= a < b < t.len() implies t[a].0 != t[b].0 by {
                        assert(t[a].0 == s[a].0 && t[b].0 == s[b].0);
                    }
                    lemma_table_map_update(s, i as int, v);
                }
            },
            None => {
                entries.push((id, name));
                proof {
                    let t = entry_views(entries@);
                    assert(t.drop_last() =~= s);
                    assert forall|a: int, b: int| 0 <= a < b < t.len() implies t[a].0 != t[b].0 by {
                        if b < s.len() {
                            assert(t[a] == s[a] && t[b] == s[b]);
                        } else {
                            assert(t[a] == s[a]);
                        }
                    }
                }
            },
        }
        self.entries = entries;
    }

    /// The names of all known peers in code point order, one per peer, as
    /// the peer pane lists them.
    pub fn sorted_names(&self) -> (r: Vec<String>)
        ensures
            lex_sorted(texts(r@)),
            texts(r@).to_multiset() == self.names().to_multiset(),
    {
        let mut r: Vec<String> = Vec::new();
        let n = self.entries.len();
        for k in 0..n
            invariant
                n == self.entries@.len(),
                lex_sorted(texts(r@)),
                texts(r@).to_multiset() == self.names().take(k as int).to_multiset(),
        {
            let x = self.entries[k].1.clone();
            let mut p: usize = 0;
            while p < r.len() && lex_less_or_equal(r[p].as_str(), x.as_str())
                invariant
                    p <= r@.len(),
                    forall|q: int| 0 <= q < p ==> lex_le(texts(r@)[q], x@),
                decreases r@.len() - p,
            {
                p = p + 1;
            }
            let ghost old_r = texts(r@);
            proof {
                lemma_sorted_insert(old_r, p as int, x@);
            }
            r.insert(p, x);
            proof {
                assert(texts(r@) =~= old_r.insert(p as int, x@));
                assert(self.names().take(k + 1) =~= self.names().take(k as int).push(self.names()[k as int]));
            }
        }
        assert(self.names().take(n as int) =~= self.names());
        r
    }

    /// Forgets peer `id`.
    pub fn remove(&mut self, id: &String)
        ensures
            final(self)@ == old(self)@.remove(id@),
    {
        proof { use_type_invariant(&*self); }
        let pos = self.find(id);
        match pos {
            Some(i) => {
                let ghost s = self.entries_view();
                let mut entries: Vec<(String, String)> = Vec::new();
                std::mem::swap(&mut entries, &mut self.entries);
                assert(entry_views(entries@) == s);
                entries.remove(i);
                proof {
                    let t = entry_views(entries@);
                    assert(t =~= s.remove(i as int));
                    lemma_table_map_remove(s, i as int);
                }
                self.entries = entries;
            },
            None => {
                proof {
                    lemma_table_map_dom(self.entries_view(), id@);
                    assert(old(self)@.remove(id@) =~= old(self)@);
                }
            },
        }
    }
}

/// The number of distinct ids equals the number of entries.
proof fn lemma_ids_dom(s: Seq<EntryView>)
    requires
        distinct_ids(s),
    ensures
        table_map(s).dom().len() == s.len(),
        table_map(s).dom().finite(),
    decreases s.len(),
{
    if s.len() > 0 {
        lemma_ids_dom(s.drop_last());
        lemma_table_map_dom(s.drop_last(), s.last().0);
    }
}

} // verus!
