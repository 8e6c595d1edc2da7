//! Ordering channels by name, the way a stable sort on `name` does.
use vstd::prelude::*;

use crate::models::Channel;
use crate::text::seq_le;
use crate::text::seq_lt;
use crate::text::str_less;

verus! {

broadcast use vstd::seq_lib::group_to_multiset_ensures;

/// The first position of `s` whose name comes strictly after `x`'s name,
/// scanning from the front (the length of `s` when there is none).
pub open spec fn first_after(s: Seq<Channel>, x: Channel) -> int
    decreases s.len(),
{
    if s.len() == 0 {
        0
    } else if seq_lt(x.name@, s[0].name@) {
        0
    } else {
        1 + first_after(s.drop_first(), x)
    }
}

/// `x` inserted into `s` after every entry whose name does not come after
/// its own.
pub open spec fn insert_by_name(s: Seq<Channel>, x: Channel) -> Seq<Channel> {
    let p = first_after(s, x);
    s.take(p).push(x) + s.skip(p)
}

/// `s` ordered by name, entries with equal names keeping their order.
pub open spec fn sort_by_name(s: Seq<Channel>) -> Seq<Channel>
    decreases s.len(),
{
    if s.len() == 0 {
        s
    } else {
        insert_by_name(sort_by_name(s.drop_last()), s.last())
    }
}

/// Names never decrease along `s`.
pub open spec fn sorted_by_name(s: Seq<Channel>) -> bool {
    forall|i: int, j: int| 0 <= i < j < s.len() ==> seq_le(#[trigger] s[i].name@, #[trigger] s[j].name@)
}

// ------------------------------------------------------------------
// Properties of the order on names
// ------------------------------------------------------------------

pub proof fn lemma_lt_irreflexive(a: Seq<char>)
    ensures
        !seq_lt(a, a),
    decreases a.len(),
{
    if a.len() > 0 {
        lemma_lt_irreflexive(a.drop_first());
    }
}

pub proof fn lemma_lt_transitive(a: Seq<char>, b: Seq<char>, c: Seq<char>)
    requires
        seq_lt(a, b),
        seq_lt(b, c),
    ensures
        seq_lt(a, c),
    decreases a.len(),
{
    if a.len() > 0 && b.len() > 0 && c.len() > 0 {
        if a[0] == b[0] && b[0] == c[0] {
            lemma_lt_transitive(a.drop_first(), b.drop_first(), c.drop_first());
        }
    }
}

pub proof fn lemma_lt_total(a: Seq<char>, b: Seq<char>)
    requires
        a != b,
    ensures
        seq_lt(a, b) || seq_lt(b, a),
    decreases a.len(),
{
    if a.len() > 0 && b.len() > 0 && a[0] == b[0] {
        if a.drop_first() == b.drop_first() {
            assert(a =~= seq![a[0]] + a.drop_first());
            assert(b =~= seq![b[0]] + b.drop_first());
        }
        lemma_lt_total(a.drop_first(), b.drop_first());
    } else if a.len() == 0 && b.len() == 0 {
        assert(a =~= b);
    }
}

proof fn lemma_le_lt_transitive(a: Seq<char>, b: Seq<char>, c: Seq<char>)
    ensures
        seq_le(a, b) && seq_lt(b, c) ==> seq_lt(a, c),
        seq_lt(a, b) && seq_le(b, c) ==> seq_lt(a, c),
        seq_le(a, b) && seq_le(b, c) ==> seq_le(a, c),
{
    if seq_lt(a, b) && seq_lt(b, c) {
        lemma_lt_transitive(a, b, c);
    }
}

// ------------------------------------------------------------------
// Properties of the insertion
// ------------------------------------------------------------------

proof fn lemma_first_after(s: Seq<Channel>, x: Channel)
    ensures
        0 <= first_after(s, x) <= s.len(),
        forall|k: int| 0 <= k < first_after(s, x) ==> !seq_lt(x.name@, #[trigger] s[k].name@),
        first_after(s, x) < s.len() ==> seq_lt(x.name@, s[first_after(s, x)].name@),
    decreases s.len(),
{
    if s.len() > 0 && !seq_lt(x.name@, s[0].name@) {
        lemma_first_after(s.drop_first(), x);
        assert forall|k: int| 0 <= k < first_after(s, x) implies !seq_lt(
            x.name@,
            #[trigger] s[k].name@,
        ) by {
            if k > 0 {
                assert(s[k] == s.drop_first()[k - 1]);
            }
        }
    }
}

proof fn lemma_insert_shape(s: Seq<Channel>, x: Channel)
    ensures
        ({
            let p = first_after(s, x);
            let r = insert_by_name(s, x);
            &&& r.len() == s.len() + 1
            &&& r[p] == x
            &&& forall|k: int| 0 <= k < p ==> r[k] == s[k]
            &&& forall|k: int| p < k < r.len() ==> r[k] == s[k - 1]
            &&& r.remove(p) == s
        }),
{
    lemma_first_after(s, x);
    let p = first_after(s, x);
    let r = insert_by_name(s, x);
    assert(r.remove(p) =~= s);
}

/// Inserting by name keeps a name-ordered sequence ordered.
pub proof fn lemma_insert_sorted(s: Seq<Channel>, x: Channel)
    requires
        sorted_by_name(s),
    ensures
        sorted_by_name(insert_by_name(s, x)),
{
    lemma_first_after(s, x);
    lemma_insert_shape(s, x);
    let p = first_after(s, x);
    let r = insert_by_name(s, x);
    assert forall|i: int, j: int| 0 <= i < j < r.len() implies seq_le(
        #[trigger] r[i].name@,
        #[trigger] r[j].name@,
    ) by {
        if i < p && j == p {
            assert(r[i] == s[i]);
            if s[i].name@ != x.name@ {
                lemma_lt_total(s[i].name@, x.name@);
            }
        } else if i == p && j > p {
            // x comes before s[p] <= s[j - 1]
            assert(r[j] == s[j - 1]);
            assert(seq_lt(x.name@, s[p].name@));
            if j - 1 > p {
                assert(seq_le(s[p].name@, s[j - 1].name@));
            }
            lemma_le_lt_transitive(x.name@, s[p].name@, s[j - 1].name@);
        } else if i < p && j > p {
            assert(r[i] == s[i]);
            assert(r[j] == s[j - 1]);
        } else if j < p {
            assert(r[i] == s[i]);
            assert(r[j] == s[j]);
        } else {
            assert(r[i] == s[i - 1]);
            assert(r[j] == s[j - 1]);
        }
    }
}

/// Inserting adds exactly one entry and loses none.
pub proof fn lemma_insert_multiset(s: Seq<Channel>, x: Channel)
    ensures
        insert_by_name(s, x).to_multiset() == s.to_multiset().insert(x),
{
    lemma_first_after(s, x);
    lemma_insert_shape(s, x);
    let p = first_after(s, x);
    let r = insert_by_name(s, x);
    assert(r.remove(p).to_multiset() == r.to_multiset().remove(r[p]));
    assert(r.contains(x));
    assert(r.to_multiset().count(x) > 0);
    assert(r.to_multiset() =~= s.to_multiset().insert(x));
}

/// Ordering by name yields a name-ordered sequence.
pub proof fn lemma_sort_sorted(s: Seq<Channel>)
    ensures
        sorted_by_name(sort_by_name(s)),
    decreases s.len(),
{
    if s.len() > 0 {
        lemma_sort_sorted(s.drop_last());
        lemma_insert_sorted(sort_by_name(s.drop_last()), s.last());
    }
}

/// Ordering by name keeps every entry, as often as it occurs.
pub proof fn lemma_sort_permutes(s: Seq<Channel>)
    ensures
        sort_by_name(s).to_multiset() == s.to_multiset(),
    decreases s.len(),
{
    if s.len() > 0 {
        lemma_sort_permutes(s.drop_last());
        lemma_insert_multiset(sort_by_name(s.drop_last()), s.last());
        assert(s.drop_last().push(s.last()) =~= s);
    }
}

// ------------------------------------------------------------------
// Execution
// ------------------------------------------------------------------

fn insert_position(out: &Vec<Channel>, x: &Channel) -> (p: usize)
    ensures
        p == first_after(out@, *x),
{
    proof {
        lemma_first_after(out@, *x);
    }
    let mut j: usize = 0;
    assert(out@.skip(0) =~= out@);
    while j < out.len() && !str_less(x.name.as_str(), out[j].name.as_str())
        invariant
            j <= out@.len(),
            first_after(out@, *x) == j + first_after(out@.skip(j as int), *x),
        decreases out.len() - j,
    {
        assert(out@.skip(j as int)[0] == out@[j as int]);
        assert(out@.skip(j as int).drop_first() =~= out@.skip(j + 1));
        j = j + 1;
    }
    proof {
        if j < out@.len() {
            assert(out@.skip(j as int)[0] == out@[j as int]);
        } else {
            assert(out@.skip(j as int).len() == 0);
        }
    }
    j
}

/// Orders `v` by channel name; channels with equal names keep their order,
/// as a stable sort on the name does.
pub fn sort_channels_by_name(v: &mut Vec<Channel>)
    ensures
        final(v)@ == sort_by_name(old(v)@),
{
    let mut input: Vec<Channel> = Vec::new();
    std::mem::swap(&mut input, v);
    let n = input.len();
    let mut out: Vec<Channel> = Vec::new();
    let mut i: usize = 0;
    assert(input@.take(0) =~= Seq::<Channel>::empty());
    while i < n
        invariant
            n == input@.len(),
            i <= n,
            out@ == sort_by_name(input@.take(i as int)),
        decreases n - i,
    {
        let x = input[i].clone();
        let p = insert_position(&out, &x);
        proof {
            lemma_first_after(out@, x);
        }
        out.insert(p, x);
        assert(input@.take(i + 1).drop_last() =~= input@.take(i as int));
        assert(out@ =~= insert_by_name(sort_by_name(input@.take(i as int)), x));
        i = i + 1;
    }
    assert(input@.take(n as int) =~= input@);
    *v = out;
}

} // verus!
