//! Lexicographic order on text by code point, which is the order `String`
//! has (UTF-8 byte order agrees with code point order), and a sort by it.

use vstd::prelude::*;

use crate::text::{chars_of, string_views};

verus! {

broadcast use vstd::seq_lib::group_to_multiset_ensures;

/// `a` sorts strictly before `b`: at the first difference `a` has the
/// smaller code point, or `a` is a proper prefix of `b`.
pub open spec fn lex_lt(a: Seq<char>, b: Seq<char>) -> bool
    decreases a.len(),
{
    if b.len() == 0 {
        false
    } else if a.len() == 0 {
        true
    } else if a[0] == b[0] {
        lex_lt(a.drop_first(), b.drop_first())
    } else {
        (a[0] as int) < (b[0] as int)
    }
}

/// Ascending: no element sorts strictly before an earlier one.
pub open spec fn sorted_lex(s: Seq<Seq<char>>) -> bool {
    forall|i: int, j: int| 0 <= i < j < s.len() ==> !lex_lt(#[trigger] s[j], #[trigger] s[i])
}

pub proof fn lemma_lex_irreflexive(a: Seq<char>)
    ensures
        !lex_lt(a, a),
    decreases a.len(),
{
    if a.len() > 0 {
        lemma_lex_irreflexive(a.drop_first());
    }
}

pub proof fn lemma_lex_transitive(a: Seq<char>, b: Seq<char>, c: Seq<char>)
    requires
        lex_lt(a, b),
        lex_lt(b, c),
    ensures
        lex_lt(a, c),
    decreases a.len(),
{
    if a.len() > 0 && b.len() > 0 && c.len() > 0 {
        if a[0] == b[0] && b[0] == c[0] {
            lemma_lex_transitive(a.drop_first(), b.drop_first(), c.drop_first());
        }
    }
}

pub proof fn lemma_lex_total(a: Seq<char>, b: Seq<char>)
    requires
        a != b,
    ensures
        lex_lt(a, b) || lex_lt(b, a),
    decreases a.len(),
{
    if a.len() > 0 && b.len() > 0 {
        if a[0] == b[0] {
            assert(a =~= seq![a[0]] + a.drop_first());
            assert(b =~= seq![b[0]] + b.drop_first());
            if a.drop_first() == b.drop_first() {
                assert(a =~= b);
            }
            lemma_lex_total(a.drop_first(), b.drop_first());
        } else {
            assert((a[0] as int) != (b[0] as int));
        }
    } else if a.len() == 0 && b.len() == 0 {
        assert(a =~= b);
    }
}

/// Whether `a` sorts strictly before `b`.
pub fn chars_lt(a: &Vec<char>, b: &Vec<char>) -> (r: bool)
    ensures
        r == lex_lt(a@, b@),
{
    let mut k: usize = 0;
    proof {
        assert(a@.subrange(0, a@.len() as int) =~= a@);
        assert(b@.subrange(0, b@.len() as int) =~= b@);
    }
    while k < a.len() && k < b.len()
        invariant
            k <= a@.len(),
            k <= b@.len(),
            lex_lt(a@, b@) == lex_lt(a@.subrange(k as int, a@.len() as int), b@.subrange(
                k as int,
                b@.len() as int,
            )),
        decreases a@.len() - k,
    {
        let ghost sa = a@.subrange(k as int, a@.len() as int);
        let ghost sb = b@.subrange(k as int, b@.len() as int);
        if a[k] != b[k] {
            let ca: char = a[k];
            let cb: char = b[k];
            proof {
                assert(sa[0] == ca && sb[0] == cb);
            }
            return ca < cb;
        }
        proof {
            assert(sa.drop_first() =~= a@.subrange(k + 1, a@.len() as int));
            assert(sb.drop_first() =~= b@.subrange(k + 1, b@.len() as int));
        }
        k = k + 1;
    }
    k < b.len()
}

/// Whether `a` sorts strictly before `b`.
pub fn str_lt(a: &str, b: &str) -> (r: bool)
    ensures
        r == lex_lt(a@, b@),
{
    let va = chars_of(a);
    let vb = chars_of(b);
    chars_lt(&va, &vb)
}

/// `v` in ascending order, as a permutation of itself.
pub fn sort_strings(v: Vec<String>) -> (r: Vec<String>)
    ensures
        sorted_lex(string_views(r@)),
        string_views(r@).to_multiset() == string_views(v@).to_multiset(),
{
    let mut out: Vec<String> = Vec::new();
    let mut rest = v;
    let ghost orig = string_views(rest@);
    let ghost mut taken: int = 0;
    proof {
        assert(orig.subrange(0, 0) =~= Seq::<Seq<char>>::empty());
        assert(string_views(out@) =~= Seq::<Seq<char>>::empty());
        assert(orig.subrange(0, orig.len() as int) =~= orig);
    }
    while rest.len() > 0
        invariant
            0 <= taken <= orig.len(),
            string_views(rest@) == orig.subrange(taken, orig.len() as int),
            sorted_lex(string_views(out@)),
            string_views(out@).to_multiset() == orig.subrange(0, taken).to_multiset(),
        decreases rest@.len(),
    {
        let ghost rest_before = rest@;
        proof {
            assert(string_views(rest_before)[0] == rest_before[0]@);
            assert(string_views(rest_before).len() == rest_before.len());
            assert(rest_before.len() == orig.len() - taken);
        }
        let x = rest.remove(0);
        proof {
            assert(string_views(rest@) =~= orig.subrange(taken + 1, orig.len() as int)) by {
                assert forall|k: int| 0 <= k < rest@.len() implies #[trigger] string_views(rest@)[k]
                    == orig.subrange(taken + 1, orig.len() as int)[k] by {
                    assert(rest@[k] == rest_before[k + 1]);
                    assert(string_views(rest_before)[k + 1] == rest_before[k + 1]@);
                    assert(string_views(rest_before)[k + 1] == orig[taken + 1 + k]);
                }
            }
            assert(x@ == orig[taken]);
        }
        let ghost sv = string_views(out@);
        let mut p: usize = 0;
        while p < out.len() && !str_lt(x.as_str(), out[p].as_str())
            invariant
                p <= out@.len(),
                sv == string_views(out@),
                forall|q: int| 0 <= q < p ==> !lex_lt(x@, #[trigger] sv[q]),
            decreases out@.len() - p,
        {
            proof {
                assert(sv[p as int] == out@[p as int]@);
            }
            p = p + 1;
        }
        proof {
            if p < out@.len() {
                assert(sv[p as int] == out@[p as int]@);
                assert(lex_lt(x@, sv[p as int]));
            }
        }
        let ghost before = out@;
        out.insert(p, x);
        proof {
            let nv = string_views(out@);
            assert(nv =~= sv.insert(p as int, x@)) by {
                assert forall|k: int| 0 <= k < nv.len() implies #[trigger] nv[k] == sv.insert(
                    p as int,
                    x@,
                )[k] by {
                    if k < p {
                        assert(out@[k] == before[k]);
                    } else if k > p {
                        assert(out@[k] == before[k - 1]);
                    }
                }
            }
            sv.insert_ensures(p as int, x@);
            assert forall|i: int, j: int| 0 <= i < j < nv.len() implies !lex_lt(
                #[trigger] nv[j],
                #[trigger] nv[i],
            ) by {
                let i0 = if i < p { i } else { i - 1 };
                let j0 = if j < p { j } else { j - 1 };
                if i != p && j != p {
                    assert(nv[i] == sv[i0]);
                    assert(nv[j] == sv[j0]);
                } else if i == p {
                    // x before everything after it
                    assert(nv[j] == sv[j0]);
                    assert(lex_lt(x@, sv[p as int]));
                    if j0 != p {
                        assert(!lex_lt(sv[j0], sv[p as int]));
                        if sv[j0] != sv[p as int] {
                            lemma_lex_total(sv[j0], sv[p as int]);
                            lemma_lex_transitive(x@, sv[p as int], sv[j0]);
                        }
                    }
                    if lex_lt(nv[j], nv[i]) {
                        lemma_lex_transitive(x@, nv[j], x@);
                        lemma_lex_irreflexive(x@);
                    }
                } else {
                    // j == p: everything before x is not after it
                    assert(nv[i] == sv[i0]);
                    assert(!lex_lt(x@, sv[i0]));
                }
            }
            assert(orig.subrange(0, taken + 1) =~= orig.subrange(0, taken).push(orig[taken]));
            vstd::seq_lib::to_multiset_insert(sv, p as int, x@);
            taken = taken + 1;
        }
    }
    proof {
        assert(orig.subrange(0, orig.len() as int) =~= orig);
    }
    out
}

} // verus!
