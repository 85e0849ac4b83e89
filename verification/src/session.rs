//! In-memory session table: a mapping from opaque numeric session
//! identifiers to usernames.  Entries are only ever added; identifiers are
//! handed out from a monotone counter, so an identifier returned by `put`
//! is always fresh and two `put` calls never disturb each other's entries.

use vstd::prelude::*;

verus! {

/// The association list `s`, read as a map from identifier to username.
/// Later entries win, though the table never creates a duplicate key.
pub open spec fn entries_map(s: Seq<(u64, Seq<char>)>) -> Map<u64, Seq<char>>
    decreases s.len(),
{
    if s.len() == 0 {
        Map::empty()
    } else {
        entries_map(s.drop_last()).insert(s.last().0, s.last().1)
    }
}

/// A key outside every entry of `s` is outside the map `s` denotes.
proof fn lemma_entries_map_absent(s: Seq<(u64, Seq<char>)>, k: u64)
    requires
        forall|i: int| 0 <= i < s.len() ==> (#[trigger] s[i]).0 != k,
    ensures
        !entries_map(s).dom().contains(k),
    decreases s.len(),
{
    if s.len() > 0 {
        lemma_entries_map_absent(s.drop_last(), k);
    }
}

/// An entry whose key no later entry repeats is what the map returns.
proof fn lemma_entries_map_lookup(s: Seq<(u64, Seq<char>)>, i: int)
    requires
        0 <= i < s.len(),
        forall|j: int| i < j < s.len() ==> (#[trigger] s[j]).0 != s[i].0,
    ensures
        entries_map(s).dom().contains(s[i].0),
        entries_map(s)[s[i].0] == s[i].1,
    decreases s.len(),
{
    if i + 1 < s.len() {
        lemma_entries_map_lookup(s.drop_last(), i);
    }
}

/// Session table: usernames keyed by identifiers drawn from a counter.
pub struct SessionTable {
    entries: Vec<(u64, String)>,
    next_id: u64,
}

impl SessionTable {
    /// The identifiers stored so far, in insertion order, are strictly
    /// increasing and all below the counter.
    pub closed spec fn wf(&self) -> bool {
        &&& forall|i: int, j: int|
            0 <= i < j < self.entries@.len() ==> (#[trigger] self.entries@[i]).0 < (
            #[trigger] self.entries@[j]).0
        &&& forall|i: int|
            0 <= i < self.entries@.len() ==> (#[trigger] self.entries@[i]).0 < self.next_id
    }

    /// The table as a map from session identifier to username.
    pub closed spec fn view(&self) -> Map<u64, Seq<char>> {
        entries_map(self.entries.deep_view())
    }

    pub fn new() -> (t: SessionTable)
        ensures
            t.wf(),
            t@ == Map::<u64, Seq<char>>::empty(),
    {
        SessionTable { entries: Vec::new(), next_id: 0 }
    }

    /// Record a login: store `username` under a fresh identifier and hand
    /// the identifier out.  Every earlier entry is kept unchanged.
    pub fn put(&mut self, username: String) -> (id: u64)
        requires
            old(self).wf(),
            old(self).next_id() < u64::MAX,
        ensures
            final(self).wf(),
            !old(self)@.dom().contains(id),
            final(self)@ == old(self)@.insert(id, username@),
    {
        let id = self.next_id;
        proof {
            lemma_entries_map_absent(self.entries.deep_view(), id);
        }
        self.entries.push((id, username));
        self.next_id = self.next_id + 1;
        proof {
            let s = old(self).entries.deep_view();
            let s2 = self.entries.deep_view();
            assert(s2.drop_last() =~= s);
        }
        id
    }

    /// Look a session identifier up; absent identifiers yield nothing.
    pub fn get(&self, id: u64) -> (r: Option<&String>)
        requires
            self.wf(),
        ensures
            match r {
                Some(u) => self@.dom().contains(id) && self@[id] == u@,
                None => !self@.dom().contains(id),
            },
    {
        let ghost s = self.entries.deep_view();
        let n = self.entries.len();
        let mut k: usize = 0;
        while k < n
            invariant
                n == self.entries@.len(),
                s == self.entries.deep_view(),
                0 <= k <= n,
                self.wf(),
                forall|i: int| 0 <= i < k ==> (#[trigger] s[i]).0 != id,
            decreases n - k,
        {
            if self.entries[k].0 == id {
                proof {
                    lemma_entries_map_lookup(s, k as int);
                }
                return Some(&self.entries[k].1);
            }
            k = k + 1;
        }
        proof {
            lemma_entries_map_absent(s, id);
        }
        None
    }

    /// The counter from which the next identifier will be drawn.
    pub closed spec fn next_id(&self) -> u64 {
        self.next_id
    }

    /// Whether the identifier counter can still hand an identifier out;
    /// callers outside the library test this before calling `put`.
    pub fn can_put(&self) -> (r: bool)
        ensures
            r == (self.next_id() < u64::MAX),
    {
        self.next_id < u64::MAX
    }
}

/// Two logins in a row, whatever their order of arrival under the shared
/// lock, end with both sessions present and intact: the identifiers differ
/// and each still maps to its own username (no lost update).
pub proof fn lemma_puts_do_not_interfere(
    m: Map<u64, Seq<char>>,
    id1: u64,
    u1: Seq<char>,
    id2: u64,
    u2: Seq<char>,
)
    requires
        !m.dom().contains(id1),
        !m.insert(id1, u1).dom().contains(id2),
    ensures
        id1 != id2,
        m.insert(id1, u1).insert(id2, u2)[id1] == u1,
        m.insert(id1, u1).insert(id2, u2)[id2] == u2,
{
}

} // verus!
