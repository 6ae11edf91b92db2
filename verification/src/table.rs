use vstd::prelude::*;

verus! {

use crate::text::{lex_lt, lemma_lex_total, lemma_lex_asym, lemma_lex_trans, lemma_lex_irrefl,
    str_lt, str_eq};

// ---------------------------------------------------------------------------
// The specification model: a sequence of (name, value) pairs, strictly
// sorted by name, looked up and updated by name.
// ---------------------------------------------------------------------------

/// The pairs are strictly sorted by name, so every name occurs at most once
/// and emission order is determined.
pub open spec fn tbl_wf<T>(m: Seq<(Seq<char>, T)>) -> bool {
    forall|i: int, j: int| #![trigger m[i], m[j]] 0 <= i < j < m.len() ==> lex_lt(m[i].0, m[j].0)
}

/// Insertion into the sorted pair sequence: a pair with the same name is
/// replaced, any other name keeps its place.
pub open spec fn spec_insert<T>(m: Seq<(Seq<char>, T)>, k: Seq<char>, v: T) -> Seq<(Seq<char>, T)>
    decreases m.len(),
{
    if m.len() == 0 {
        seq![(k, v)]
    } else if lex_lt(k, m[0].0) {
        seq![(k, v)] + m
    } else if k == m[0].0 {
        seq![(k, v)] + m.skip(1)
    } else {
        seq![m[0]] + spec_insert(m.skip(1), k, v)
    }
}

/// The value stored under `k`, or `None` when no pair carries that name.
pub open spec fn spec_get<T>(m: Seq<(Seq<char>, T)>, k: Seq<char>) -> Option<T>
    decreases m.len(),
{
    if m.len() == 0 {
        None
    } else if m[0].0 == k {
        Some(m[0].1)
    } else {
        spec_get(m.skip(1), k)
    }
}

/// Whether some pair carries the name `k`.
pub open spec fn key_in<T>(m: Seq<(Seq<char>, T)>, k: Seq<char>) -> bool {
    spec_get(m, k) is Some
}

/// Merging: every pair of `b` is inserted into `a` in order, so on a shared
/// name the pair of `b` wins.
pub open spec fn spec_merge<T>(a: Seq<(Seq<char>, T)>, b: Seq<(Seq<char>, T)>) -> Seq<
    (Seq<char>, T),
>
    decreases b.len(),
{
    if b.len() == 0 {
        a
    } else {
        spec_merge(spec_insert(a, b[0].0, b[0].1), b.skip(1))
    }
}

// ---------------------------------------------------------------------------
// Lemmas
// ---------------------------------------------------------------------------

/// A sorted pair sequence stays sorted when its first pair is dropped.
pub proof fn lemma_wf_skip<T>(m: Seq<(Seq<char>, T)>)
    requires
        tbl_wf(m),
        m.len() > 0,
    ensures
        tbl_wf(m.skip(1)),
{
    assert forall|i: int, j: int| 0 <= i < j < m.skip(1).len() implies lex_lt(
        #[trigger] m.skip(1)[i].0,
        #[trigger] m.skip(1)[j].0,
    ) by {
        assert(m.skip(1)[i] == m[i + 1]);
        assert(m.skip(1)[j] == m[j + 1]);
    }
}

/// What insertion does to every lookup: the inserted name maps to the new
/// value, every other name maps to what it mapped to before.
pub proof fn lemma_get_insert<T>(m: Seq<(Seq<char>, T)>, k: Seq<char>, v: T, x: Seq<char>)
    ensures
        x == k ==> spec_get(spec_insert(m, k, v), x) == Some(v),
        x != k ==> spec_get(spec_insert(m, k, v), x) == spec_get(m, x),
    decreases m.len(),
{
    let r = spec_insert(m, k, v);
    if m.len() == 0 {
        assert(r == seq![(k, v)]);
        assert(r[0] == (k, v));
        assert(r.skip(1) =~= Seq::<(Seq<char>, T)>::empty());
    } else if lex_lt(k, m[0].0) {
        assert(r == seq![(k, v)] + m);
        assert(r[0] == (k, v));
        assert(r.skip(1) =~= m);
        if x == k {
            assert(spec_get(r, x) == Some(v));
        } else {
            assert(spec_get(r, x) == spec_get(m, x));
        }
    } else if k == m[0].0 {
        assert(r == seq![(k, v)] + m.skip(1));
        assert(r[0] == (k, v));
        assert(r.skip(1) =~= m.skip(1));
        if x == k {
            assert(spec_get(r, x) == Some(v));
        } else {
            assert(spec_get(r, x) == spec_get(m.skip(1), x));
            assert(spec_get(m, x) == spec_get(m.skip(1), x));
        }
    } else {
        assert(r == seq![m[0]] + spec_insert(m.skip(1), k, v));
        assert(r[0] == m[0]);
        assert(r.skip(1) =~= spec_insert(m.skip(1), k, v));
        lemma_get_insert(m.skip(1), k, v, x);
        if x == m[0].0 {
            assert(spec_get(m, x) == Some(m[0].1));
            assert(spec_get(r, x) == Some(r[0].1));
        } else {
            assert(spec_get(r, x) == spec_get(r.skip(1), x));
            assert(spec_get(m, x) == spec_get(m.skip(1), x));
        }
    }
}

/// Where a sorted sequence places an inserted name: after every strictly
/// smaller name.
pub open spec fn insert_pos<T>(m: Seq<(Seq<char>, T)>, k: Seq<char>) -> int
    decreases m.len(),
{
    if m.len() == 0 {
        0
    } else if lex_lt(m[0].0, k) {
        1 + insert_pos(m.skip(1), k)
    } else {
        0
    }
}

pub proof fn lemma_insert_pos<T>(m: Seq<(Seq<char>, T)>, k: Seq<char>)
    requires
        tbl_wf(m),
    ensures
        0 <= insert_pos(m, k) <= m.len(),
        forall|j: int| 0 <= j < insert_pos(m, k) ==> lex_lt(#[trigger] m[j].0, k),
        insert_pos(m, k) < m.len() ==> !lex_lt(m[insert_pos(m, k)].0, k),
    decreases m.len(),
{
    if m.len() == 0 {
    } else if lex_lt(m[0].0, k) {
        lemma_wf_skip(m);
        lemma_insert_pos(m.skip(1), k);
        let p = insert_pos(m, k);
        assert forall|j: int| 0 <= j < p implies lex_lt(#[trigger] m[j].0, k) by {
            if j > 0 {
                assert(m.skip(1)[j - 1] == m[j]);
            }
        }
        if p < m.len() {
            assert(m.skip(1)[p - 1] == m[p]);
        }
    } else {
    }
}

/// How insertion rearranges the pairs, given the insertion position.
pub proof fn lemma_insert_shape<T>(m: Seq<(Seq<char>, T)>, k: Seq<char>, v: T, idx: int)
    requires
        0 <= idx <= m.len(),
        forall|j: int| 0 <= j < idx ==> lex_lt(#[trigger] m[j].0, k),
        idx < m.len() ==> !lex_lt(m[idx].0, k),
    ensures
        idx < m.len() && m[idx].0 == k ==> spec_insert(m, k, v) == m.take(idx) + seq![(k, v)]
            + m.skip(idx + 1),
        !(idx < m.len() && m[idx].0 == k) ==> spec_insert(m, k, v) == m.take(idx) + seq![(k, v)]
            + m.skip(idx),
    decreases idx,
{
    if idx == 0 {
        if m.len() == 0 {
            assert(spec_insert(m, k, v) =~= m.take(0) + seq![(k, v)] + m.skip(0));
        } else if m[0].0 == k {
            lemma_lex_irrefl(k);
            assert(spec_insert(m, k, v) == seq![(k, v)] + m.skip(1));
            assert(seq![(k, v)] + m.skip(1) =~= m.take(0) + seq![(k, v)] + m.skip(1));
        } else {
            lemma_lex_total(k, m[0].0);
            assert(lex_lt(k, m[0].0));
            assert(spec_insert(m, k, v) == seq![(k, v)] + m);
            assert(seq![(k, v)] + m =~= m.take(0) + seq![(k, v)] + m.skip(0));
        }
    } else {
        assert(lex_lt(m[0].0, k));
        lemma_lex_asym(m[0].0, k);
        assert(spec_insert(m, k, v) == seq![m[0]] + spec_insert(m.skip(1), k, v));
        let t = m.skip(1);
        assert forall|j: int| 0 <= j < idx - 1 implies lex_lt(#[trigger] t[j].0, k) by {
            assert(t[j] == m[j + 1]);
        }
        if idx - 1 < t.len() {
            assert(t[idx - 1] == m[idx]);
        }
        lemma_insert_shape(t, k, v, idx - 1);
        if idx < m.len() && m[idx].0 == k {
            assert(seq![m[0]] + (t.take(idx - 1) + seq![(k, v)] + t.skip(idx)) =~= m.take(idx)
                + seq![(k, v)] + m.skip(idx + 1));
        } else {
            assert(seq![m[0]] + (t.take(idx - 1) + seq![(k, v)] + t.skip(idx - 1)) =~= m.take(idx)
                + seq![(k, v)] + m.skip(idx));
        }
    }
}

/// Insertion keeps the pairs strictly sorted by name.
pub proof fn lemma_insert_wf<T>(m: Seq<(Seq<char>, T)>, k: Seq<char>, v: T)
    requires
        tbl_wf(m),
    ensures
        tbl_wf(spec_insert(m, k, v)),
{
    lemma_insert_pos(m, k);
    let p = insert_pos(m, k);
    lemma_insert_shape(m, k, v, p);
    let r = spec_insert(m, k, v);
    let hit = p < m.len() && m[p].0 == k;
    if p < m.len() && !hit {
        lemma_lex_total(k, m[p].0);
        assert(lex_lt(k, m[p].0));
    }
    assert forall|i: int, j: int| 0 <= i < j < r.len() implies lex_lt(
        (#[trigger] r[i]).0,
        (#[trigger] r[j]).0,
    ) by {
        let s: int = if hit {
            0
        } else {
            1
        };
        if i < p {
            assert(r[i] == m[i]);
        }
        if j < p {
            assert(r[j] == m[j]);
        }
        if i > p {
            assert(r[i] == m[i - s]);
        }
        if j > p {
            assert(r[j] == m[j - s]);
        }
        if i == p {
            assert(r[i].0 == k);
        }
        if j == p {
            assert(r[j].0 == k);
        }
        if i < p && j == p {
            // from the position lemma, m[i].0 is below k
        } else if i < p && j > p {
            if j - s > p {
                assert(lex_lt(m[i].0, m[j - s].0));
            } else {
                assert(j - s == p);
                assert(lex_lt(m[i].0, m[p].0));
            }
        } else if i == p && j > p {
            if hit {
                assert(lex_lt(m[p].0, m[j].0));
            } else {
                if j - 1 == p {
                    assert(lex_lt(k, m[p].0));
                } else {
                    lemma_lex_trans(k, m[p].0, m[j - 1].0);
                }
            }
        } else if i > p && j > p {
            assert(lex_lt(m[i - s].0, m[j - s].0));
        }
    }
}

proof fn lemma_wf_head_not_in_tail<T>(m: Seq<(Seq<char>, T)>)
    requires
        tbl_wf(m),
        m.len() > 0,
    ensures
        !key_in(m.skip(1), m[0].0),
    decreases m.len(),
{
    let t = m.skip(1);
    if t.len() > 0 && key_in(t, m[0].0) {
        lemma_get_index(t, m[0].0);
        let i = choose|i: int| 0 <= i < t.len() && t[i].0 == m[0].0;
        assert(t[i] == m[i + 1]);
        assert(lex_lt(m[0].0, m[i + 1].0));
        lemma_lex_irrefl(m[0].0);
    }
}

proof fn lemma_get_index<T>(m: Seq<(Seq<char>, T)>, k: Seq<char>)
    requires
        key_in(m, k),
    ensures
        exists|i: int| 0 <= i < m.len() && (#[trigger] m[i]).0 == k,
    decreases m.len(),
{
    if m.len() > 0 {
        if m[0].0 == k {
            assert(m[0].0 == k);
        } else {
            lemma_get_index(m.skip(1), k);
            let i = choose|i: int| 0 <= i < m.skip(1).len() && m.skip(1)[i].0 == k;
            assert(m[i + 1] == m.skip(1)[i]);
        }
    }
}

/// What merging does to every lookup: a name present in `b` maps to the value
/// of `b`, every other name maps to what `a` mapped it to. In particular no
/// pair of either side is dropped, and on a shared name the later side wins.
pub proof fn lemma_merge_get<T>(a: Seq<(Seq<char>, T)>, b: Seq<(Seq<char>, T)>, x: Seq<char>)
    requires
        tbl_wf(b),
    ensures
        spec_get(spec_merge(a, b), x) == if key_in(b, x) {
            spec_get(b, x)
        } else {
            spec_get(a, x)
        },
    decreases b.len(),
{
    if b.len() == 0 {
    } else {
        let a1 = spec_insert(a, b[0].0, b[0].1);
        lemma_wf_skip(b);
        lemma_merge_get(a1, b.skip(1), x);
        lemma_get_insert(a, b[0].0, b[0].1, x);
        if x == b[0].0 {
            lemma_wf_head_not_in_tail(b);
        } else {
            assert(spec_get(b, x) == spec_get(b.skip(1), x));
        }
    }
}

/// A name appears in the merge exactly when it appears on either side.
pub proof fn lemma_merge_keys<T>(a: Seq<(Seq<char>, T)>, b: Seq<(Seq<char>, T)>, x: Seq<char>)
    requires
        tbl_wf(b),
    ensures
        key_in(spec_merge(a, b), x) == (key_in(a, x) || key_in(b, x)),
{
    lemma_merge_get(a, b, x);
}

// ---------------------------------------------------------------------------
// The executable table
// ---------------------------------------------------------------------------

struct TableEntry<V> {
    name: String,
    value: V,
}

/// A mapping from generated object names to configuration objects, held as a
/// vector of pairs strictly sorted by name so that emission order is the
/// sorted name order.
pub struct Table<V> {
    entries: Vec<TableEntry<V>>,
}

impl<V: View> View for Table<V> {
    type V = Seq<(Seq<char>, <V as View>::V)>;

    closed spec fn view(&self) -> Seq<(Seq<char>, <V as View>::V)> {
        Seq::new(self.entries@.len(), |i: int| (self.entries@[i].name@, self.entries@[i].value@))
    }
}

impl<V: View> Table<V> {
    /// The table is strictly sorted by name.
    pub open spec fn wf(&self) -> bool {
        tbl_wf(self@)
    }

    /// An empty table.
    pub fn new() -> (t: Self)
        ensures
            t@ == Seq::<(Seq<char>, <V as View>::V)>::empty(),
            t.wf(),
    {
        let t = Table { entries: Vec::new() };
        proof {
            assert(t@ =~= Seq::<(Seq<char>, <V as View>::V)>::empty());
        }
        t
    }

    /// How many names the table holds.
    pub fn len(&self) -> (n: usize)
        ensures
            n == self@.len(),
    {
        self.entries.len()
    }

    /// Whether the table holds no pair at all.
    pub fn is_empty(&self) -> (r: bool)
        ensures
            r == (self@.len() == 0),
    {
        self.entries.is_empty()
    }

    /// The name at position `i` of the emission order.
    pub fn key_at(&self, i: usize) -> (k: &String)
        requires
            i < self@.len(),
        ensures
            k@ == self@[i as int].0,
    {
        &self.entries[i].name
    }

    /// The value at position `i` of the emission order.
    pub fn value_at(&self, i: usize) -> (v: &V)
        requires
            i < self@.len(),
        ensures
            v@ == self@[i as int].1,
    {
        &self.entries[i].value
    }

    fn next_is_lt(&self, idx: usize, name: &str) -> (r: bool)
        ensures
            r == (idx < self@.len() && lex_lt(self@[idx as int].0, name@)),
    {
        if idx < self.entries.len() {
            str_lt(self.entries[idx].name.as_str(), name)
        } else {
            false
        }
    }

    /// Store `value` under `name`, replacing any value the name held before.
    pub fn insert(&mut self, name: String, value: V)
        requires
            old(self).wf(),
        ensures
            final(self).wf(),
            final(self)@ == spec_insert(old(self)@, name@, value@),
    {
        let ghost m = self@;
        let n = self.entries.len();
        let mut idx: usize = 0;
        while self.next_is_lt(idx, name.as_str())
            invariant
                idx <= n,
                n == self@.len(),
                self@ == m,
                forall|j: int| 0 <= j < idx ==> lex_lt((#[trigger] m[j]).0, name@),
            decreases self@.len() - idx,
        {
            idx = idx + 1;
        }
        proof {
            lemma_insert_shape(m, name@, value@, idx as int);
            lemma_insert_wf(m, name@, value@);
        }
        if idx < self.entries.len() && str_eq(self.entries[idx].name.as_str(), name.as_str()) {
            self.entries.remove(idx);
            self.entries.insert(idx, TableEntry { name, value });
            proof {
                assert(self@ =~= m.take(idx as int) + seq![(name@, value@)] + m.skip(
                    idx as int + 1,
                ));
            }
        } else {
            self.entries.insert(idx, TableEntry { name, value });
            proof {
                assert(self@ =~= m.take(idx as int) + seq![(name@, value@)] + m.skip(idx as int));
            }
        }
    }

    /// Look up the value stored under `name`.
    pub fn get<'a>(&'a self, name: &str) -> (r: Option<&'a V>)
        ensures
            match r {
                Some(v) => spec_get(self@, name@) == Some(v@),
                None => spec_get(self@, name@) is None,
            },
    {
        let ghost m = self@;
        proof {
            assert(m.skip(0) =~= m);
        }
        let mut i: usize = 0;
        while i < self.entries.len()
            invariant
                i <= self@.len(),
                self@ == m,
                spec_get(m, name@) == spec_get(m.skip(i as int), name@),
            decreases self@.len() - i,
        {
            proof {
                assert(m.skip(i as int)[0] == m[i as int]);
                assert(m.skip(i as int).skip(1) =~= m.skip(i as int + 1));
            }
            if str_eq(self.entries[i].name.as_str(), name) {
                return Some(&self.entries[i].value);
            }
            i = i + 1;
        }
        proof {
            assert(m.skip(i as int) =~= Seq::<(Seq<char>, <V as View>::V)>::empty());
        }
        None
    }

    /// Fold every pair of `other` into this table, in emission order, so that
    /// on a shared name the pair of `other` wins.
    pub fn merge(&mut self, other: Table<V>)
        requires
            old(self).wf(),
            other.wf(),
        ensures
            final(self).wf(),
            final(self)@ == spec_merge(old(self)@, other@),
    {
        let mut rest = other;
        let ghost a0 = self@;
        let ghost b0 = rest@;
        while rest.entries.len() > 0
            invariant
                self.wf(),
                tbl_wf(rest@),
                spec_merge(self@, rest@) == spec_merge(a0, b0),
            decreases rest@.len(),
        {
            let ghost sa = self@;
            let ghost sb = rest@;
            let e = rest.entries.remove(0);
            proof {
                assert(rest@ =~= sb.skip(1));
                assert(sb[0] == (e.name@, e.value@));
                lemma_wf_skip(sb);
            }
            self.insert(e.name, e.value);
        }
        proof {
            assert(rest@.len() == 0);
        }
    }
}

} // verus!
