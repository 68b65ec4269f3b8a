//! Ordering records by name: byte-wise lexicographic comparison of the UTF-8
//! encoding, and the stable sort that the search result follows.
use vstd::prelude::*;
use vstd::utf8::encode_utf8;

use crate::domain::System;

verus! {

broadcast use vstd::seq_lib::group_seq_properties;

/// Strict lexicographic order on byte strings; a proper prefix comes first.
pub open spec fn bytes_lt(a: Seq<u8>, b: Seq<u8>) -> bool
    decreases a.len(),
{
    if a.len() == 0 {
        b.len() > 0
    } else if b.len() == 0 {
        false
    } else if a[0] != b[0] {
        a[0] < b[0]
    } else {
        bytes_lt(a.drop_first(), b.drop_first())
    }
}

/// The bytes by which a record is ordered: the UTF-8 encoding of its name.
pub open spec fn name_key(s: System) -> Seq<u8> {
    encode_utf8(s.name@)
}

/// Whether `a`'s name comes strictly before `b`'s.
pub open spec fn precedes(a: System, b: System) -> bool {
    bytes_lt(name_key(a), name_key(b))
}

/// Every record's name is at least that of each record before it.
pub open spec fn ordered_by_name(s: Seq<System>) -> bool {
    forall|i: int, j: int| 0 <= i < j < s.len() ==> !precedes(#[trigger] s[j], #[trigger] s[i])
}

/// `s` with `x` placed before the first record whose name is not smaller than
/// `x`'s.
pub open spec fn insert_by_name(s: Seq<System>, x: System) -> Seq<System>
    decreases s.len(),
{
    if s.len() == 0 {
        seq![x]
    } else if !precedes(s[0], x) {
        seq![x] + s
    } else {
        seq![s[0]] + insert_by_name(s.drop_first(), x)
    }
}

/// The stable sort of `s` by name: records with equal names keep the order
/// they have in `s`.
pub open spec fn sort_by_name(s: Seq<System>) -> Seq<System>
    decreases s.len(),
{
    if s.len() == 0 {
        s
    } else {
        insert_by_name(sort_by_name(s.drop_first()), s[0])
    }
}

pub proof fn lemma_bytes_lt_irreflexive(a: Seq<u8>)
    ensures
        !bytes_lt(a, a),
    decreases a.len(),
{
    if a.len() > 0 {
        lemma_bytes_lt_irreflexive(a.drop_first());
    }
}

pub proof fn lemma_bytes_lt_trichotomy(a: Seq<u8>, b: Seq<u8>)
    ensures
        a == b || bytes_lt(a, b) || bytes_lt(b, a),
    decreases a.len(),
{
    if a.len() > 0 && b.len() > 0 && a[0] == b[0] {
        lemma_bytes_lt_trichotomy(a.drop_first(), b.drop_first());
        if a.drop_first() == b.drop_first() {
            assert(a =~= seq![a[0]] + a.drop_first());
            assert(b =~= seq![b[0]] + b.drop_first());
        }
    } else if a.len() == 0 && b.len() == 0 {
        assert(a =~= b);
    }
}

pub proof fn lemma_bytes_lt_transitive(a: Seq<u8>, b: Seq<u8>, c: Seq<u8>)
    requires
        bytes_lt(a, b),
        bytes_lt(b, c),
    ensures
        bytes_lt(a, c),
    decreases a.len(),
{
    if a.len() > 0 && b.len() > 0 && c.len() > 0 && a[0] == b[0] && b[0] == c[0] {
        lemma_bytes_lt_transitive(a.drop_first(), b.drop_first(), c.drop_first());
    }
}

pub proof fn lemma_bytes_lt_asymmetric(a: Seq<u8>, b: Seq<u8>)
    requires
        bytes_lt(a, b),
    ensures
        !bytes_lt(b, a),
{
    if bytes_lt(b, a) {
        lemma_bytes_lt_transitive(a, b, a);
        lemma_bytes_lt_irreflexive(a);
    }
}

/// "Not smaller than" is transitive.
pub proof fn lemma_bytes_le_transitive(a: Seq<u8>, b: Seq<u8>, c: Seq<u8>)
    requires
        !bytes_lt(b, a),
        !bytes_lt(c, b),
    ensures
        !bytes_lt(c, a),
{
    if bytes_lt(c, a) {
        lemma_bytes_lt_trichotomy(a, b);
        if bytes_lt(a, b) {
            lemma_bytes_lt_transitive(c, a, b);
        }
    }
}

/// Whatever lies below every record of `u` and below `x` lies below every
/// record of `insert_by_name(u, x)`.
proof fn lemma_insert_lower_bound(u: Seq<System>, x: System, key: Seq<u8>)
    requires
        forall|j: int| 0 <= j < u.len() ==> !bytes_lt(#[trigger] name_key(u[j]), key),
        !bytes_lt(name_key(x), key),
    ensures
        forall|j: int|
            0 <= j < insert_by_name(u, x).len() ==> !bytes_lt(
                #[trigger] name_key(insert_by_name(u, x)[j]),
                key,
            ),
    decreases u.len(),
{
    if u.len() > 0 && precedes(u[0], x) {
        let t = u.drop_first();
        assert forall|j: int| 0 <= j < t.len() implies !bytes_lt(#[trigger] name_key(t[j]), key) by {
            assert(t[j] == u[j + 1]);
        }
        lemma_insert_lower_bound(t, x, key);
        let r = insert_by_name(u, x);
        assert forall|j: int| 0 <= j < r.len() implies !bytes_lt(#[trigger] name_key(r[j]), key) by {
            if j > 0 {
                assert(r[j] == insert_by_name(t, x)[j - 1]);
            }
        }
    }
}

pub proof fn lemma_insert_ordered(u: Seq<System>, x: System)
    requires
        ordered_by_name(u),
    ensures
        ordered_by_name(insert_by_name(u, x)),
    decreases u.len(),
{
    let r = insert_by_name(u, x);
    if u.len() == 0 {
    } else if !precedes(u[0], x) {
        assert forall|i: int, j: int| 0 <= i < j < r.len() implies !precedes(
            #[trigger] r[j],
            #[trigger] r[i],
        ) by {
            if i == 0 {
                assert(r[j] == u[j - 1]);
                if j - 1 > 0 {
                    assert(!precedes(u[j - 1], u[0]));
                } else {
                    lemma_bytes_lt_irreflexive(name_key(u[0]));
                }
                lemma_bytes_le_transitive(name_key(x), name_key(u[0]), name_key(u[j - 1]));
            } else {
                assert(r[i] == u[i - 1] && r[j] == u[j - 1]);
            }
        }
    } else {
        let t = u.drop_first();
        assert(ordered_by_name(t)) by {
            assert forall|i: int, j: int| 0 <= i < j < t.len() implies !precedes(
                #[trigger] t[j],
                #[trigger] t[i],
            ) by {
                assert(t[i] == u[i + 1] && t[j] == u[j + 1]);
            }
        }
        lemma_insert_ordered(t, x);
        lemma_bytes_lt_asymmetric(name_key(u[0]), name_key(x));
        assert forall|j: int| 0 <= j < t.len() implies !bytes_lt(
            #[trigger] name_key(t[j]),
            name_key(u[0]),
        ) by {
            assert(t[j] == u[j + 1]);
        }
        lemma_insert_lower_bound(t, x, name_key(u[0]));
        let rt = insert_by_name(t, x);
        assert forall|i: int, j: int| 0 <= i < j < r.len() implies !precedes(
            #[trigger] r[j],
            #[trigger] r[i],
        ) by {
            assert(r[j] == rt[j - 1]);
            if i > 0 {
                assert(r[i] == rt[i - 1]);
            }
        }
    }
}

/// The stable sort by name yields records ordered by name.
pub proof fn lemma_sort_ordered(s: Seq<System>)
    ensures
        ordered_by_name(sort_by_name(s)),
    decreases s.len(),
{
    if s.len() > 0 {
        lemma_sort_ordered(s.drop_first());
        lemma_insert_ordered(sort_by_name(s.drop_first()), s[0]);
    }
}

/// Sorting a sequence already ordered by name leaves it as it is.
pub proof fn lemma_sort_of_ordered(s: Seq<System>)
    requires
        ordered_by_name(s),
    ensures
        sort_by_name(s) == s,
    decreases s.len(),
{
    if s.len() > 0 {
        let t = s.drop_first();
        assert(ordered_by_name(t)) by {
            assert forall|i: int, j: int| 0 <= i < j < t.len() implies !precedes(
                #[trigger] t[j],
                #[trigger] t[i],
            ) by {
                assert(t[i] == s[i + 1] && t[j] == s[j + 1]);
            }
        }
        lemma_sort_of_ordered(t);
        if t.len() > 0 {
            assert(!precedes(s[1], s[0]));
        }
        assert(seq![s[0]] + t =~= s);
    }
}

/// Sorting a sequence ordered by name keeps its records: `insert_by_name`
/// followed by a filter is the filter followed by `insert_by_name`.
proof fn lemma_insert_filter(u: Seq<System>, x: System, keep: spec_fn(System) -> bool)
    requires
        ordered_by_name(u),
    ensures
        insert_by_name(u, x).filter(keep) == (if keep(x) {
            insert_by_name(u.filter(keep), x)
        } else {
            u.filter(keep)
        }),
    decreases u.len(),
{
    if u.len() == 0 {
        assert(insert_by_name(u, x) =~= seq![x] + u);
        u.lemma_filter_prepend(x, keep);
    } else if !precedes(u[0], x) {
        u.lemma_filter_prepend(x, keep);
        if keep(x) {
            let f = u.filter(keep);
            if f.len() > 0 {
                assert(f.contains(f[0]));
                u.lemma_filter_contains_rev(keep, f[0]);
                let j = choose|j: int| 0 <= j < u.len() && u[j] == f[0];
                if j > 0 {
                    assert(!precedes(u[j], u[0]));
                } else {
                    lemma_bytes_lt_irreflexive(name_key(u[0]));
                }
                lemma_bytes_le_transitive(name_key(x), name_key(u[0]), name_key(u[j]));
            }
        }
    } else {
        let t = u.drop_first();
        assert(ordered_by_name(t)) by {
            assert forall|i: int, j: int| 0 <= i < j < t.len() implies !precedes(
                #[trigger] t[j],
                #[trigger] t[i],
            ) by {
                assert(t[i] == u[i + 1] && t[j] == u[j + 1]);
            }
        }
        lemma_insert_filter(t, x, keep);
        insert_by_name(t, x).lemma_filter_prepend(u[0], keep);
        t.lemma_filter_prepend(u[0], keep);
        assert(seq![u[0]] + t =~= u);
        if keep(x) && keep(u[0]) {
            let f = seq![u[0]] + t.filter(keep);
            assert(f.drop_first() =~= t.filter(keep));
        }
    }
}

/// Filtering commutes with the stable sort by name.
pub proof fn lemma_sort_filter(s: Seq<System>, keep: spec_fn(System) -> bool)
    ensures
        sort_by_name(s).filter(keep) == sort_by_name(s.filter(keep)),
    decreases s.len(),
{
    if s.len() == 0 {
        assert(s.filter(keep) =~= s);
    } else {
        let t = s.drop_first();
        lemma_sort_filter(t, keep);
        lemma_sort_ordered(t);
        lemma_insert_filter(sort_by_name(t), s[0], keep);
        assert(seq![s[0]] + t =~= s);
        t.lemma_filter_prepend(s[0], keep);
        if keep(s[0]) {
            let f = seq![s[0]] + t.filter(keep);
            assert(f.drop_first() =~= t.filter(keep));
        }
    }
}

proof fn lemma_insert_keeps_records(u: Seq<System>, x: System)
    ensures
        insert_by_name(u, x).to_multiset() == u.to_multiset().insert(x),
    decreases u.len(),
{
    if u.len() == 0 || !precedes(u[0], x) {
        assert(seq![x] + u =~= u.insert(0, x));
        vstd::seq_lib::to_multiset_insert(u, 0, x);
    } else {
        let t = u.drop_first();
        let v = insert_by_name(t, x);
        lemma_insert_keeps_records(t, x);
        assert(seq![u[0]] + v =~= v.insert(0, u[0]));
        vstd::seq_lib::to_multiset_insert(v, 0, u[0]);
        assert(t.insert(0, u[0]) =~= u);
        vstd::seq_lib::to_multiset_insert(t, 0, u[0]);
        assert(u.to_multiset().insert(x) =~= v.to_multiset().insert(u[0]));
    }
}

/// The stable sort by name keeps every record, each as often as it occurs.
pub proof fn lemma_sort_keeps_records(s: Seq<System>)
    ensures
        sort_by_name(s).to_multiset() == s.to_multiset(),
    decreases s.len(),
{
    if s.len() == 0 {
    } else {
        let t = s.drop_first();
        lemma_sort_keeps_records(t);
        lemma_insert_keeps_records(sort_by_name(t), s[0]);
        assert(t.insert(0, s[0]) =~= s);
        vstd::seq_lib::to_multiset_insert(t, 0, s[0]);
    }
}

/// The sort is stable: the records that share a name appear in the sorted
/// sequence in the order they have in `s`.
pub proof fn lemma_sort_is_stable(s: Seq<System>, name: Seq<char>)
    ensures
        sort_by_name(s).filter(|x: System| x.name@ == name) == s.filter(
            |x: System| x.name@ == name,
        ),
{
    let same = |x: System| x.name@ == name;
    let f = s.filter(same);
    lemma_sort_filter(s, same);
    f.filter_lemma(same);
    assert(ordered_by_name(f)) by {
        assert forall|i: int, j: int| 0 <= i < j < f.len() implies !precedes(
            #[trigger] f[j],
            #[trigger] f[i],
        ) by {
            assert(same(f[i]) && same(f[j]));
            lemma_bytes_lt_irreflexive(name_key(f[i]));
        }
    }
    lemma_sort_of_ordered(f);
}

/// The stable merge of two sequences: on equal names the record of `a`
/// comes first.
pub open spec fn merge_by_name(a: Seq<System>, b: Seq<System>) -> Seq<System>
    decreases a.len() + b.len(),
{
    if a.len() == 0 {
        b
    } else if b.len() == 0 {
        a
    } else if precedes(b[0], a[0]) {
        seq![b[0]] + merge_by_name(a, b.drop_first())
    } else {
        seq![a[0]] + merge_by_name(a.drop_first(), b)
    }
}

proof fn lemma_drop_first_ordered(u: Seq<System>)
    requires
        ordered_by_name(u),
        u.len() > 0,
    ensures
        ordered_by_name(u.drop_first()),
{
    let t = u.drop_first();
    assert forall|i: int, j: int| 0 <= i < j < t.len() implies !precedes(
        #[trigger] t[j],
        #[trigger] t[i],
    ) by {
        assert(t[i] == u[i + 1] && t[j] == u[j + 1]);
    }
}

/// Inserting into a merge is merging after inserting into its left side.
proof fn lemma_insert_into_merge(u: Seq<System>, v: Seq<System>, x: System)
    requires
        ordered_by_name(u),
        ordered_by_name(v),
    ensures
        insert_by_name(merge_by_name(u, v), x) == merge_by_name(insert_by_name(u, x), v),
    decreases u.len() + v.len(),
{
    let w = insert_by_name(u, x);
    if u.len() == 0 {
        assert(w == seq![x]);
        if v.len() > 0 {
            let vt = v.drop_first();
            assert(merge_by_name(u, v) == v);
            if precedes(v[0], x) {
                lemma_drop_first_ordered(v);
                lemma_insert_into_merge(u, vt, x);
                assert(merge_by_name(u, vt) == vt);
                assert(insert_by_name(v, x) == seq![v[0]] + insert_by_name(vt, x));
                assert(merge_by_name(w, v) == seq![v[0]] + merge_by_name(w, vt));
            } else {
                assert(insert_by_name(v, x) == seq![x] + v);
                assert(w.drop_first() =~= u);
                assert(merge_by_name(w, v) == seq![x] + merge_by_name(u, v));
            }
        } else {
            assert(merge_by_name(u, v) == v);
            assert(merge_by_name(w, v) == w);
            assert(insert_by_name(v, x) == w);
        }
    } else if v.len() == 0 {
        assert(merge_by_name(u, v) == u);
        assert(w.len() > 0);
        assert(merge_by_name(w, v) == w);
    } else if precedes(v[0], u[0]) {
        let vt = v.drop_first();
        let m = merge_by_name(u, v);
        assert(m == seq![v[0]] + merge_by_name(u, vt));
        assert(m[0] == v[0] && m.drop_first() =~= merge_by_name(u, vt));
        lemma_drop_first_ordered(v);
        if precedes(v[0], x) {
            lemma_insert_into_merge(u, vt, x);
            assert(insert_by_name(m, x) == seq![v[0]] + insert_by_name(merge_by_name(u, vt), x));
            if precedes(u[0], x) {
                assert(w == seq![u[0]] + insert_by_name(u.drop_first(), x));
                assert(w[0] == u[0]);
            } else {
                assert(w == seq![x] + u);
                assert(w[0] == x);
            }
            assert(merge_by_name(w, v) == seq![v[0]] + merge_by_name(w, vt));
        } else {
            lemma_bytes_lt_asymmetric(name_key(v[0]), name_key(u[0]));
            lemma_bytes_le_transitive(name_key(x), name_key(v[0]), name_key(u[0]));
            assert(insert_by_name(m, x) == seq![x] + m);
            assert(w == seq![x] + u);
            assert(w[0] == x && w.drop_first() =~= u);
            assert(merge_by_name(w, v) == seq![x] + merge_by_name(u, v));
        }
    } else {
        let ut = u.drop_first();
        let m = merge_by_name(u, v);
        assert(m == seq![u[0]] + merge_by_name(ut, v));
        assert(m[0] == u[0] && m.drop_first() =~= merge_by_name(ut, v));
        lemma_drop_first_ordered(u);
        if precedes(u[0], x) {
            lemma_insert_into_merge(ut, v, x);
            assert(insert_by_name(m, x) == seq![u[0]] + insert_by_name(merge_by_name(ut, v), x));
            assert(w == seq![u[0]] + insert_by_name(ut, x));
            assert(w[0] == u[0] && w.drop_first() =~= insert_by_name(ut, x));
            assert(merge_by_name(w, v) == seq![u[0]] + merge_by_name(insert_by_name(ut, x), v));
        } else {
            lemma_bytes_le_transitive(name_key(x), name_key(u[0]), name_key(v[0]));
            assert(insert_by_name(m, x) == seq![x] + m);
            assert(w == seq![x] + u);
            assert(w[0] == x && w.drop_first() =~= u);
            assert(merge_by_name(w, v) == seq![x] + merge_by_name(u, v));
        }
    }
}

/// Sorting a concatenation is merging the sorted parts.
pub proof fn lemma_sort_concat(a: Seq<System>, b: Seq<System>)
    ensures
        sort_by_name(a + b) == merge_by_name(sort_by_name(a), sort_by_name(b)),
    decreases a.len(),
{
    if a.len() == 0 {
        assert(a + b =~= b);
    } else {
        let t = a.drop_first();
        lemma_sort_concat(t, b);
        assert((a + b).drop_first() =~= t + b);
        assert((a + b)[0] == a[0]);
        lemma_sort_ordered(t);
        lemma_sort_ordered(b);
        lemma_insert_into_merge(sort_by_name(t), sort_by_name(b), a[0]);
    }
}

/// Whether `a`'s name comes strictly before `b`'s in byte order.
pub fn name_precedes(a: &System, b: &System) -> (r: bool)
    ensures
        r == precedes(*a, *b),
{
    let x: &[u8] = a.name.as_str().as_bytes();
    let y: &[u8] = b.name.as_str().as_bytes();
    let mut i: usize = 0;
    while i < x.len() && i < y.len()
        invariant
            i <= x@.len(),
            i <= y@.len(),
            x@ == name_key(*a),
            y@ == name_key(*b),
            bytes_lt(x@, y@) == bytes_lt(x@.skip(i as int), y@.skip(i as int)),
        decreases x@.len() - i,
    {
        if x[i] != y[i] {
            assert(x@.skip(i as int)[0] == x@[i as int] && y@.skip(i as int)[0] == y@[i as int]);
            return x[i] < y[i];
        }
        proof {
            assert(x@.skip(i as int).drop_first() =~= x@.skip(i as int + 1));
            assert(y@.skip(i as int).drop_first() =~= y@.skip(i as int + 1));
        }
        i = i + 1;
    }
    i < y.len()
}

/// `s` from its last record to its first.
pub open spec fn backwards(s: Seq<System>) -> Seq<System> {
    Seq::new(s.len(), |i: int| s[s.len() - 1 - i])
}

/// The records of `v` in the opposite order.
pub fn reversed(v: Vec<System>) -> (r: Vec<System>)
    ensures
        r@ == backwards(v@),
{
    let ghost all = v@;
    let mut rest = v;
    let mut r: Vec<System> = Vec::new();
    proof {
        assert(backwards(all.skip(all.len() as int)) =~= r@);
    }
    while rest.len() > 0
        invariant
            rest@.len() <= all.len(),
            rest@ == all.take(rest@.len() as int),
            r@ == backwards(all.skip(rest@.len() as int)),
        decreases rest@.len(),
    {
        let ghost n = rest@.len() as int;
        let system = rest.pop().unwrap();
        r.push(system);
        proof {
            assert(system == all[n - 1]);
            assert(rest@ =~= all.take(n - 1));
            assert(r@ =~= backwards(all.skip(n - 1)));
        }
    }
    proof {
        assert(all.skip(0) =~= all);
    }
    r
}

/// The stable merge of two vectors by name.
fn merge_records(a: Vec<System>, b: Vec<System>) -> (r: Vec<System>)
    ensures
        r@ == merge_by_name(a@, b@),
{
    let ghost sa = a@;
    let ghost sb = b@;
    let mut ra = reversed(a);
    let mut rb = reversed(b);
    let mut out: Vec<System> = Vec::new();
    proof {
        assert(sa.skip(0) =~= sa);
        assert(sb.skip(0) =~= sb);
        assert(out@ + merge_by_name(sa, sb) =~= merge_by_name(sa, sb));
    }
    while ra.len() > 0 || rb.len() > 0
        invariant
            ra@.len() <= sa.len(),
            rb@.len() <= sb.len(),
            ra@ == backwards(sa.skip(sa.len() - ra@.len())),
            rb@ == backwards(sb.skip(sb.len() - rb@.len())),
            out@ + merge_by_name(sa.skip(sa.len() - ra@.len()), sb.skip(sb.len() - rb@.len()))
                == merge_by_name(sa, sb),
        decreases ra@.len() + rb@.len(),
    {
        let ghost i = sa.len() - ra@.len();
        let ghost j = sb.len() - rb@.len();
        let ghost rest_a = sa.skip(i);
        let ghost rest_b = sb.skip(j);
        let from_b = if ra.len() == 0 {
            true
        } else if rb.len() == 0 {
            false
        } else {
            name_precedes(&rb[rb.len() - 1], &ra[ra.len() - 1])
        };
        if from_b {
            let system = rb.pop().unwrap();
            proof {
                assert(system == rest_b[0]);
                assert(rb@ =~= backwards(sb.skip(j + 1)));
                assert(rest_b.drop_first() =~= sb.skip(j + 1));
                assert(merge_by_name(rest_a, rest_b) == seq![system] + merge_by_name(
                    rest_a,
                    rest_b.drop_first(),
                ));
            }
            out.push(system);
            proof {
                let tail = merge_by_name(rest_a, sb.skip(j + 1));
                assert(out@ + tail =~= out@.drop_last() + (seq![system] + tail));
            }
        } else {
            let system = ra.pop().unwrap();
            proof {
                assert(system == rest_a[0]);
                assert(ra@ =~= backwards(sa.skip(i + 1)));
                assert(rest_a.drop_first() =~= sa.skip(i + 1));
                if rest_b.len() == 0 {
                    if rest_a.len() == 1 {
                        assert(rest_a.drop_first().len() == 0);
                    }
                    assert(merge_by_name(rest_a.drop_first(), rest_b) == rest_a.drop_first());
                    assert(rest_a =~= seq![system] + rest_a.drop_first());
                }
                assert(merge_by_name(rest_a, rest_b) == seq![system] + merge_by_name(
                    rest_a.drop_first(),
                    rest_b,
                ));
            }
            out.push(system);
            proof {
                let tail = merge_by_name(sa.skip(i + 1), rest_b);
                assert(out@ + tail =~= out@.drop_last() + (seq![system] + tail));
            }
        }
    }
    proof {
        assert(out@ + merge_by_name(sa.skip(sa.len() as int), sb.skip(sb.len() as int)) =~= out@);
    }
    out
}

/// The records of `v` stably sorted by name.
pub fn sort_records(v: Vec<System>) -> (r: Vec<System>)
    ensures
        r@ == sort_by_name(v@),
    decreases v@.len(),
{
    if v.len() <= 1 {
        proof {
            lemma_sort_of_ordered(v@);
        }
        return v;
    }
    let ghost whole = v@;
    let mut left = v;
    let mid: usize = left.len() / 2;
    let right = left.split_off(mid);
    proof {
        assert(whole =~= left@ + right@);
        lemma_sort_concat(left@, right@);
    }
    let sorted_left = sort_records(left);
    let sorted_right = sort_records(right);
    merge_records(sorted_left, sorted_right)
}

} // verus!
