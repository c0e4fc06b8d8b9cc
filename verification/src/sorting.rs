//! Sorting strings in the order `str`'s `Ord` gives them (for the ASCII
//! names sorted here, the order of their characters' code points), and
//! removing repeated neighbours.
use vstd::prelude::*;
use vstd::relations::{sorted_by, total_ordering};
use vstd::seq_lib::lemma_sorted_unique;

use crate::text::string_views;

verus! {

/// Lexicographic order of character sequences by code point, a shorter
/// sequence before any longer one it starts.
pub open spec fn str_leq(a: Seq<char>, b: Seq<char>) -> bool
    decreases a.len(),
{
    if a.len() == 0 {
        true
    } else if b.len() == 0 {
        false
    } else if a[0] != b[0] {
        a[0] < b[0]
    } else {
        str_leq(a.drop_first(), b.drop_first())
    }
}

/// The order as a relation.
pub open spec fn str_order() -> spec_fn(Seq<char>, Seq<char>) -> bool {
    |a: Seq<char>, b: Seq<char>| str_leq(a, b)
}

/// Every text comes no later than itself.
pub proof fn lemma_leq_reflexive(a: Seq<char>)
    ensures
        str_leq(a, a),
    decreases a.len(),
{
    if a.len() > 0 {
        lemma_leq_reflexive(a.drop_first());
    }
}

/// Two texts each no later than the other are equal.
pub proof fn lemma_leq_antisymmetric(a: Seq<char>, b: Seq<char>)
    requires
        str_leq(a, b),
        str_leq(b, a),
    ensures
        a == b,
    decreases a.len(),
{
    if a.len() > 0 && b.len() > 0 {
        if a[0] == b[0] {
            lemma_leq_antisymmetric(a.drop_first(), b.drop_first());
            assert(a =~= seq![a[0]] + a.drop_first());
            assert(b =~= seq![b[0]] + b.drop_first());
        }
    }
}

/// The order is transitive.
pub proof fn lemma_leq_transitive(a: Seq<char>, b: Seq<char>, c: Seq<char>)
    requires
        str_leq(a, b),
        str_leq(b, c),
    ensures
        str_leq(a, c),
    decreases a.len(),
{
    if a.len() > 0 && b.len() > 0 && c.len() > 0 {
        if a[0] == b[0] && b[0] == c[0] {
            lemma_leq_transitive(a.drop_first(), b.drop_first(), c.drop_first());
        }
    }
}

/// Of two texts, one comes no later than the other.
pub proof fn lemma_leq_total(a: Seq<char>, b: Seq<char>)
    ensures
        str_leq(a, b) || str_leq(b, a),
    decreases a.len(),
{
    if a.len() > 0 && b.len() > 0 {
        if a[0] == b[0] {
            lemma_leq_total(a.drop_first(), b.drop_first());
        }
    }
}

/// The order is total: reflexive, antisymmetric, transitive and connected.
pub proof fn lemma_str_order_total()
    ensures
        total_ordering(str_order()),
{
    let r = str_order();
    assert forall|x: Seq<char>| #[trigger] r(x, x) by {
        lemma_leq_reflexive(x);
    }
    assert forall|x: Seq<char>, y: Seq<char>| #[trigger] r(x, y) && #[trigger] r(y, x) implies x == y by {
        lemma_leq_antisymmetric(x, y);
    }
    assert forall|x: Seq<char>, y: Seq<char>, z: Seq<char>| #[trigger] r(x, y) && #[trigger] r(y, z) implies r(x, z) by {
        lemma_leq_transitive(x, y, z);
    }
    assert forall|x: Seq<char>, y: Seq<char>| #[trigger] r(x, y) || #[trigger] r(y, x) by {
        lemma_leq_total(x, y);
    }
}

/// Whether `a` comes no later than `b`.
pub fn str_leq_chars(a: &str, b: &str) -> (r: bool)
    ensures
        r == str_leq(a@, b@),
{
    let x = crate::text::chars_of(a);
    let y = crate::text::chars_of(b);
    let mut i: usize = 0;
    assert(a@.skip(0) =~= a@ && b@.skip(0) =~= b@);
    while i < x.len() && i < y.len()
        invariant
            x@ == a@,
            y@ == b@,
            i <= x@.len(),
            i <= y@.len(),
            str_leq(a@, b@) == str_leq(a@.skip(i as int), b@.skip(i as int)),
        decreases x@.len() - i,
    {
        let ghost sa = a@.skip(i as int);
        let ghost sb = b@.skip(i as int);
        assert(sa[0] == x@[i as int] && sb[0] == y@[i as int]);
        if x[i] != y[i] {
            return x[i] < y[i];
        }
        assert(sa.drop_first() =~= a@.skip(i + 1));
        assert(sb.drop_first() =~= b@.skip(i + 1));
        i = i + 1;
    }
    i == x.len()
}

/// The strings sorted, as `sort_unstable` orders them.
pub fn sort_strings(v: Vec<String>) -> (r: Vec<String>)
    ensures
        string_views(r@) == string_views(v@).sort_by(str_order()),
{
    broadcast use vstd::seq_lib::group_to_multiset_ensures;
    broadcast use vstd::multiset::group_multiset_axioms;
    let ghost orig = string_views(v@);
    let mut rest = v;
    let mut out: Vec<String> = Vec::new();
    proof {
        lemma_str_order_total();
        assert(string_views(out@) =~= Seq::<Seq<char>>::empty());
    }
    while rest.len() > 0
        invariant
            total_ordering(str_order()),
            string_views(out@).to_multiset().add(string_views(rest@).to_multiset()) == orig.to_multiset(),
            sorted_by(string_views(out@), str_order()),
            forall|i: int, j: int|
                0 <= i < out@.len() && 0 <= j < rest@.len() ==> str_leq(#[trigger] out@[i]@, #[trigger] rest@[j]@),
        decreases rest@.len(),
    {
        let mut m: usize = 0;
        let mut j: usize = 1;
        proof {
            lemma_leq_reflexive(rest@[0]@);
        }
        while j < rest.len()
            invariant
                0 <= m < rest@.len(),
                1 <= j <= rest@.len(),
                total_ordering(str_order()),
                forall|k: int| 0 <= k < j ==> str_leq(rest@[m as int]@, #[trigger] rest@[k]@),
            decreases rest@.len() - j,
        {
            if !str_leq_chars(rest[m].as_str(), rest[j].as_str()) {
                proof {
                    lemma_leq_total(rest@[m as int]@, rest@[j as int]@);
                    assert forall|k: int| 0 <= k < j + 1 implies str_leq(rest@[j as int]@, #[trigger] rest@[k]@) by {
                        if k < j {
                            lemma_leq_transitive(rest@[j as int]@, rest@[m as int]@, rest@[k]@);
                        } else {
                            lemma_leq_reflexive(rest@[k]@);
                        }
                    }
                }
                m = j;
            }
            j = j + 1;
        }
        let ghost old_out = out@;
        let ghost old_rest = rest@;
        let x = rest.remove(m);
        proof {
            assert(string_views(rest@) =~= string_views(old_rest).remove(m as int));
            assert(string_views(old_rest)[m as int] == x@);
        }
        let ghost xv = x@;
        out.push(x);
        proof {
            assert(string_views(out@) =~= string_views(old_out).push(xv));
            let ro = string_views(old_rest);
            let oo = string_views(old_out);
            ro.to_multiset_ensures();
            oo.to_multiset_ensures();
            assert(ro.remove(m as int).to_multiset() =~= ro.to_multiset().remove(ro[m as int]));
            assert(oo.push(xv).to_multiset() =~= oo.to_multiset().insert(xv));
            assert(ro.to_multiset().count(xv) > 0) by {
                assert(ro.contains(xv)) by {
                    assert(ro[m as int] == xv);
                }
            }
            assert(oo.to_multiset().insert(xv).add(ro.to_multiset().remove(xv)) =~= oo.to_multiset().add(ro.to_multiset()));
            let so = string_views(out@);
            assert forall|i: int, k: int| 0 <= i < k < so.len() implies #[trigger] (str_order())(so[i], so[k]) by {
                if k == so.len() - 1 {
                    assert(old_rest[m as int] == x);
                    assert(str_leq(old_out[i]@, old_rest[m as int]@));
                } else {
                    assert(so[i] == string_views(old_out)[i] && so[k] == string_views(old_out)[k]);
                }
            }
            assert forall|i: int, k: int| 0 <= i < out@.len() && 0 <= k < rest@.len() implies str_leq(#[trigger] out@[i]@, #[trigger] rest@[k]@) by {
                let kk = if k < m { k } else { k + 1 };
                assert(rest@[k] == old_rest[kk]);
                if i == out@.len() - 1 {
                    assert(str_leq(old_rest[m as int]@, old_rest[kk]@));
                } else {
                    assert(out@[i] == old_out[i]);
                }
            }
        }
    }
    proof {
        let so = string_views(out@);
        assert(string_views(rest@) =~= Seq::<Seq<char>>::empty());
        assert(so.to_multiset() =~= orig.to_multiset());
        orig.lemma_sort_by_ensures(str_order());
        lemma_sorted_unique(so, orig.sort_by(str_order()), str_order());
    }
    out
}

/// `s` without the elements equal to the one before them.
pub open spec fn dedup(s: Seq<Seq<char>>) -> Seq<Seq<char>>
    decreases s.len(),
{
    if s.len() <= 1 {
        s
    } else if s.last() == s[s.len() - 2] {
        dedup(s.drop_last())
    } else {
        dedup(s.drop_last()).push(s.last())
    }
}

/// Removes each string equal to the one before it, as `Vec::dedup` does.
pub fn dedup_strings(v: Vec<String>) -> (r: Vec<String>)
    ensures
        string_views(r@) == dedup(string_views(v@)),
{
    let ghost sv = string_views(v@);
    let mut out: Vec<String> = Vec::new();
    let mut k: usize = 0;
    while k < v.len()
        invariant
            k <= v@.len(),
            sv == string_views(v@),
            string_views(out@) == dedup(sv.take(k as int)),
            k > 0 ==> out@.len() > 0 && out@.last()@ == sv[k - 1],
        decreases v@.len() - k,
    {
        assert(sv.take(k + 1).drop_last() =~= sv.take(k as int));
        let ghost prev = string_views(out@);
        if k == 0 || !crate::text::str_eq(v[k].as_str(), v[k - 1].as_str()) {
            out.push(v[k].clone());
            assert(string_views(out@) =~= prev.push(sv[k as int]));
            if k == 0 {
                assert(sv.take(1) =~= seq![sv[0]]);
            }
        } else {
            proof {
                if k == 1 {
                    assert(sv.take(1) =~= seq![sv[0]]);
                }
            }
        }
        k = k + 1;
    }
    assert(sv.take(v@.len() as int) =~= sv);
    out
}

} // verus!
