//! A model of the process-wide environment, threaded through dispatch.
//!
//! The dispatch layer owns this table; the embedding seeds it from the real
//! process environment at startup and mirrors every granted write back onto
//! the host, so the table stays a faithful snapshot between dispatches.

use vstd::prelude::*;

verus! {

/// The key/value map denoted by a sequence of entries; a later entry for
/// the same key wins.
pub open spec fn map_of(s: Seq<(Seq<char>, Seq<char>)>) -> Map<Seq<char>, Seq<char>>
    decreases s.len(),
{
    if s.len() == 0 {
        Map::empty()
    } else {
        map_of(s.drop_last()).insert(s.last().0, s.last().1)
    }
}

/// An environment-variable table with one entry per variable name.
pub struct EnvTable {
    entries: Vec<(String, String)>,
}

impl EnvTable {
    /// The key/value views of the entries, in table order.
    pub closed spec fn kv(self) -> Seq<(Seq<char>, Seq<char>)> {
        self.entries@.map_values(|e: (String, String)| (e.0@, e.1@))
    }

    /// No variable name occurs twice.
    pub open spec fn wf(self) -> bool {
        forall|i: int, j: int|
            0 <= i < j < self.kv().len() ==> self.kv()[i].0 != self.kv()[j].0
    }

    /// An empty table.
    pub fn new() -> (r: EnvTable)
        ensures
            r.wf(),
            r.kv() == Seq::<(Seq<char>, Seq<char>)>::empty(),
            r@ == Map::<Seq<char>, Seq<char>>::empty(),
    {
        let r = EnvTable { entries: Vec::new() };
        assert(r.kv() =~= Seq::<(Seq<char>, Seq<char>)>::empty());
        r
    }

    /// How many variables the table holds.
    pub fn len(&self) -> (r: usize)
        ensures
            r == self.kv().len(),
    {
        self.entries.len()
    }

    /// The name of the variable at an index.
    pub fn key_at(&self, i: usize) -> (r: &String)
        requires
            i < self.kv().len(),
        ensures
            r@ == self.kv()[i as int].0,
    {
        &self.entries[i].0
    }

    /// The value of the variable at an index.
    pub fn value_at(&self, i: usize) -> (r: &String)
        requires
            i < self.kv().len(),
        ensures
            r@ == self.kv()[i as int].1,
    {
        &self.entries[i].1
    }

    /// Binds or overwrites one variable.
    pub fn set(&mut self, key: String, value: String)
        requires
            old(self).wf(),
        ensures
            final(self).wf(),
            final(self)@ == old(self)@.insert(key@, value@),
    {
        let ghost pre = self.kv();
        proof {
            assert(pre.len() == self.entries@.len());
        }
        let n = self.entries.len();
        let mut i: usize = 0;
        while i < n
            invariant
                n == self.entries@.len(),
                pre.len() == n,
                pre == self.kv(),
                i <= n,
                *self == *old(self),
                old(self).wf(),
                forall|j: int| 0 <= j < i ==> self.kv()[j].0 != key@,
            decreases n - i,
        {
            if self.entries[i].0 == key {
                self.entries[i] = (key, value);
                proof {
                    assert forall|a: int, b: int|
                        0 <= a < b < pre.len() implies pre[a].0 != pre[b].0 by {
                        assert(old(self).kv()[a].0 != old(self).kv()[b].0);
                    }
                    assert(self.kv() =~= pre.update(i as int, (key@, value@)));
                    lemma_map_of_update(pre, i as int, key@, value@);
                    assert(self.wf());
                }
                return;
            }
            i += 1;
        }
        self.entries.push((key, value));
        proof {
            assert(self.kv() =~= pre.push((key@, value@)));
            assert(self.kv().drop_last() =~= pre);
            assert(self@ == old(self)@.insert(key@, value@));
            assert forall|a: int, b: int|
                0 <= a < b < self.kv().len() implies self.kv()[a].0 != self.kv()[b].0 by {
                if b == self.kv().len() - 1 {
                    assert(self.kv()[a] == pre[a]);
                }
            }
        }
    }
}

impl View for EnvTable {
    type V = Map<Seq<char>, Seq<char>>;

    /// The mapping from variable names to values that the table denotes.
    open spec fn view(&self) -> Map<Seq<char>, Seq<char>> {
        map_of(self.kv())
    }
}

/// Overwriting the entry that holds a key denotes the same mapping as
/// inserting that key, provided names are unique.
proof fn lemma_map_of_update(s: Seq<(Seq<char>, Seq<char>)>, i: int, k: Seq<char>, v: Seq<char>)
    requires
        0 <= i < s.len(),
        s[i].0 == k,
        forall|a: int, b: int| 0 <= a < b < s.len() ==> s[a].0 != s[b].0,
    ensures
        map_of(s.update(i, (k, v))) == map_of(s).insert(k, v),
        forall|a: int, b: int|
            0 <= a < b < s.update(i, (k, v)).len()
                ==> s.update(i, (k, v))[a].0 != s.update(i, (k, v))[b].0,
    decreases s.len(),
{
    let t = s.update(i, (k, v));
    assert forall|a: int, b: int| 0 <= a < b < t.len() implies t[a].0 != t[b].0 by {
        assert(t[a].0 == s[a].0);
        assert(t[b].0 == s[b].0);
    }
    if i == s.len() - 1 {
        assert(t.drop_last() =~= s.drop_last());
        assert(map_of(t) == map_of(s.drop_last()).insert(k, v));
        assert(map_of(s) == map_of(s.drop_last()).insert(k, s[i].1));
        assert(map_of(s).insert(k, v) =~= map_of(s.drop_last()).insert(k, v));
    } else {
        assert(t.drop_last() =~= s.drop_last().update(i, (k, v)));
        lemma_map_of_update(s.drop_last(), i, k, v);
        let last = s.last();
        assert(t.last() == last);
        assert(map_of(t) == map_of(s.drop_last()).insert(k, v).insert(last.0, last.1));
        assert(last.0 != k);
        assert(map_of(s.drop_last()).insert(k, v).insert(last.0, last.1) =~= map_of(
            s.drop_last(),
        ).insert(last.0, last.1).insert(k, v));
    }
}

/// A key in the denoted mapping is bound by some entry that holds the
/// mapping's value for it.
pub proof fn lemma_map_of_witness(s: Seq<(Seq<char>, Seq<char>)>, k: Seq<char>)
    requires
        map_of(s).contains_key(k),
    ensures
        exists|i: int| 0 <= i < s.len() && s[i].0 == k && s[i].1 == map_of(s)[k],
    decreases s.len(),
{
    if s.len() == 0 {
    } else if s.last().0 == k {
        assert(0 <= s.len() - 1 < s.len() && s[s.len() - 1].0 == k && s[s.len() - 1].1 == map_of(
            s,
        )[k]);
    } else {
        lemma_map_of_witness(s.drop_last(), k);
        let i = choose|i: int|
            0 <= i < s.drop_last().len() && s.drop_last()[i].0 == k && s.drop_last()[i].1
                == map_of(s.drop_last())[k];
        assert(0 <= i < s.len() && s[i].0 == k && s[i].1 == map_of(s)[k]);
    }
}

} // verus!
