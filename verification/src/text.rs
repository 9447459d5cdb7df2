//! Character-level helpers shared by the path, glob and message code.

use vstd::prelude::*;

verus! {

broadcast use vstd::string::group_string_axioms;

/// `p` is a prefix of `s`.
pub open spec fn starts_with(s: Seq<char>, p: Seq<char>) -> bool {
    p.len() <= s.len() && s.subrange(0, p.len() as int) == p
}

/// `p` is a suffix of `s`.
pub open spec fn ends_with(s: Seq<char>, p: Seq<char>) -> bool {
    p.len() <= s.len() && s.subrange(s.len() - p.len(), s.len() as int) == p
}

/// `n` occurs somewhere in `s` as a contiguous run.
pub open spec fn contains_run(s: Seq<char>, n: Seq<char>) -> bool {
    exists|i: int| 0 <= i && i + n.len() <= s.len() && #[trigger] s.subrange(i, i + n.len()) == n
}

/// `c` occurs in `s`.
pub open spec fn has_char(s: Seq<char>, c: char) -> bool {
    exists|i: int| 0 <= i < s.len() && s[i] == c
}

/// `s` with every `from` replaced by `to`.
pub open spec fn replace_char(s: Seq<char>, from: char, to: char) -> Seq<char> {
    s.map_values(|x: char| if x == from { to } else { x })
}

/// `s` with every `c` removed.
pub open spec fn remove_char(s: Seq<char>, c: char) -> Seq<char>
    decreases s.len(),
{
    if s.len() == 0 {
        s
    } else if s.last() == c {
        remove_char(s.drop_last(), c)
    } else {
        remove_char(s.drop_last(), c).push(s.last())
    }
}

/// The characters of a string slice.
pub fn chars_of(s: &str) -> (v: Vec<char>)
    ensures
        v@ == s@,
{
    let mut v: Vec<char> = Vec::new();
    for c in it: s.chars()
        invariant
            v@ == it.seq().take(it.index() as int),
    {
        v.push(c);
    }
    proof {
        assert(v@ =~= s@);
    }
    v
}

/// `String::push` from std: appends one character.
#[verifier::external_body]
fn push_char(s: &mut String, c: char)
    ensures
        final(s)@ == old(s)@.push(c),
{
    s.push(c);
}

/// A string holding exactly the characters `cs[from..to]`.
pub fn string_of_range(cs: &Vec<char>, from: usize, to: usize) -> (s: String)
    requires
        from <= to <= cs@.len(),
    ensures
        s@ == cs@.subrange(from as int, to as int),
{
    let mut s = String::new();
    let mut i = from;
    while i < to
        invariant
            from <= i <= to <= cs@.len(),
            s@ == cs@.subrange(from as int, i as int),
        decreases to - i,
    {
        push_char(&mut s, cs[i]);
        i = i + 1;
        proof {
            assert(s@ =~= cs@.subrange(from as int, i as int));
        }
    }
    s
}

/// A string holding exactly the characters `cs`.
pub fn string_of(cs: &Vec<char>) -> (s: String)
    ensures
        s@ == cs@,
{
    let s = string_of_range(cs, 0, cs.len());
    proof {
        assert(cs@.subrange(0, cs@.len() as int) =~= cs@);
    }
    s
}

/// Character-wise equality of two character vectors.
pub fn chars_eq(a: &Vec<char>, b: &Vec<char>) -> (r: bool)
    ensures
        r == (a@ == b@),
{
    if a.len() != b.len() {
        return false;
    }
    let mut i: usize = 0;
    while i < a.len()
        invariant
            a@.len() == b@.len(),
            i <= a@.len(),
            forall|j: int| 0 <= j < i ==> a@[j] == b@[j],
        decreases a@.len() - i,
    {
        if a[i] != b[i] {
            return false;
        }
        i = i + 1;
    }
    proof {
        assert(a@ =~= b@);
    }
    true
}

/// Equality of two string slices by their characters.
pub fn str_eq(a: &str, b: &str) -> (r: bool)
    ensures
        r == (a@ == b@),
{
    let va = chars_of(a);
    let vb = chars_of(b);
    chars_eq(&va, &vb)
}

/// Whether `p` matches `s` at position `at`.
pub fn matches_at(s: &Vec<char>, p: &Vec<char>, at: usize) -> (r: bool)
    requires
        at <= s@.len(),
    ensures
        r == (at + p@.len() <= s@.len() && s@.subrange(at as int, at + p@.len()) == p@),
{
    if p.len() > s.len() - at {
        return false;
    }
    let mut i: usize = 0;
    while i < p.len()
        invariant
            at + p@.len() <= s@.len(),
            s@.len() <= usize::MAX,
            i <= p@.len(),
            forall|j: int| 0 <= j < i ==> s@[at + j] == p@[j],
        decreases p@.len() - i,
    {
        if s[at + i] != p[i] {
            proof {
                assert(s@.subrange(at as int, at + p@.len())[i as int] != p@[i as int]);
            }
            return false;
        }
        i = i + 1;
    }
    proof {
        assert(s@.subrange(at as int, at + p@.len()) =~= p@);
    }
    true
}

/// `p` is a prefix of `s`.
pub fn vec_starts_with(s: &Vec<char>, p: &Vec<char>) -> (r: bool)
    ensures
        r == starts_with(s@, p@),
{
    matches_at(s, p, 0)
}

/// `p` is a suffix of `s`.
pub fn vec_ends_with(s: &Vec<char>, p: &Vec<char>) -> (r: bool)
    ensures
        r == ends_with(s@, p@),
{
    if p.len() > s.len() {
        return false;
    }
    matches_at(s, p, s.len() - p.len())
}

/// `n` occurs in `s`.
pub fn vec_contains_run(s: &Vec<char>, n: &Vec<char>) -> (r: bool)
    ensures
        r == contains_run(s@, n@),
{
    if n.len() > s.len() {
        proof {
            assert forall|i: int| 0 <= i && i + n@.len() <= s@.len() implies #[trigger] s@.subrange(
                i,
                i + n@.len(),
            ) != n@ by {}
        }
        return false;
    }
    let last = s.len() - n.len();
    let mut i: usize = 0;
    loop
        invariant
            last == s@.len() - n@.len(),
            i <= last,
            forall|j: int| 0 <= j < i ==> #[trigger] s@.subrange(j, j + n@.len()) != n@,
        ensures
            forall|j: int| 0 <= j <= last ==> #[trigger] s@.subrange(j, j + n@.len()) != n@,
        decreases last - i,
    {
        if matches_at(s, n, i) {
            return true;
        }
        if i == last {
            break;
        }
        i = i + 1;
    }
    proof {
        assert forall|j: int| 0 <= j && j + n@.len() <= s@.len() implies #[trigger] s@.subrange(
            j,
            j + n@.len(),
        ) != n@ by {}
    }
    false
}

/// Whether `c` occurs in `s`.
pub fn vec_has_char(s: &Vec<char>, c: char) -> (r: bool)
    ensures
        r == has_char(s@, c),
{
    let mut i: usize = 0;
    while i < s.len()
        invariant
            i <= s@.len(),
            forall|j: int| 0 <= j < i ==> s@[j] != c,
        decreases s@.len() - i,
    {
        if s[i] == c {
            return true;
        }
        i = i + 1;
    }
    false
}

/// `s` with every `from` replaced by `to`.
pub fn vec_replace_char(s: &Vec<char>, from: char, to: char) -> (r: Vec<char>)
    ensures
        r@ == replace_char(s@, from, to),
{
    let mut r: Vec<char> = Vec::new();
    let mut i: usize = 0;
    while i < s.len()
        invariant
            i <= s@.len(),
            r@ == replace_char(s@.subrange(0, i as int), from, to),
        decreases s@.len() - i,
    {
        let c = s[i];
        if c == from {
            r.push(to);
        } else {
            r.push(c);
        }
        i = i + 1;
        proof {
            assert(r@ =~= replace_char(s@.subrange(0, i as int), from, to));
        }
    }
    proof {
        assert(s@.subrange(0, s@.len() as int) =~= s@);
    }
    r
}

/// `s` with every `c` removed.
pub fn vec_remove_char(s: &Vec<char>, c: char) -> (r: Vec<char>)
    ensures
        r@ == remove_char(s@, c),
{
    let mut r: Vec<char> = Vec::new();
    let mut i: usize = 0;
    while i < s.len()
        invariant
            i <= s@.len(),
            r@ == remove_char(s@.subrange(0, i as int), c),
        decreases s@.len() - i,
    {
        let x = s[i];
        proof {
            assert(s@.subrange(0, i + 1).drop_last() =~= s@.subrange(0, i as int));
        }
        if x != c {
            r.push(x);
        }
        i = i + 1;
    }
    proof {
        assert(s@.subrange(0, s@.len() as int) =~= s@);
    }
    r
}

/// A new string: `a` followed by `b`.
pub fn concat2(a: &str, b: &str) -> (s: String)
    ensures
        s@ == a@ + b@,
{
    let mut s = String::from_str(a);
    s.append(b);
    s
}

/// A new string: `a`, `b`, `c` in order.
pub fn concat3(a: &str, b: &str, c: &str) -> (s: String)
    ensures
        s@ == a@ + b@ + c@,
{
    let mut s = String::from_str(a);
    s.append(b);
    s.append(c);
    s
}

/// The characters of each string.
pub open spec fn string_views(v: Seq<String>) -> Seq<Seq<char>> {
    v.map_values(|s: String| s@)
}

/// Whether one of the strings equals `s`.
pub fn strings_contain(v: &Vec<String>, s: &str) -> (r: bool)
    ensures
        r == string_views(v@).contains(s@),
{
    let mut i: usize = 0;
    while i < v.len()
        invariant
            i <= v@.len(),
            forall|k: int| 0 <= k < i ==> v@[k]@ != s@,
        decreases v@.len() - i,
    {
        if str_eq(v[i].as_str(), s) {
            proof {
                assert(string_views(v@)[i as int] == s@);
            }
            return true;
        }
        i = i + 1;
    }
    proof {
        if string_views(v@).contains(s@) {
            let k = choose|k: int| 0 <= k < string_views(v@).len() && string_views(v@)[k] == s@;
            assert(v@[k]@ == s@);
        }
    }
    false
}

/// The pieces joined with `sep` between them.
pub open spec fn join_with(v: Seq<Seq<char>>, sep: Seq<char>) -> Seq<char>
    decreases v.len(),
{
    if v.len() == 0 {
        Seq::empty()
    } else if v.len() == 1 {
        v[0]
    } else {
        join_with(v.drop_last(), sep) + sep + v.last()
    }
}

/// The strings joined with `sep` between them, as characters.
pub fn join_strings(v: &Vec<String>, sep: &str) -> (r: Vec<char>)
    ensures
        r@ == join_with(string_views(v@), sep@),
{
    let sep_chars = chars_of(sep);
    let mut out: Vec<char> = Vec::new();
    let mut i: usize = 0;
    while i < v.len()
        invariant
            i <= v@.len(),
            sep_chars@ == sep@,
            out@ == join_with(string_views(v@).subrange(0, i as int), sep@),
        decreases v@.len() - i,
    {
        let ghost sub = string_views(v@).subrange(0, i + 1);
        proof {
            assert(sub.drop_last() =~= string_views(v@).subrange(0, i as int));
            assert(sub.last() == v@[i as int]@);
        }
        let ghost base = out@;
        if i > 0 {
            let mut k: usize = 0;
            while k < sep_chars.len()
                invariant
                    k <= sep_chars@.len(),
                    out@ == base + sep_chars@.subrange(0, k as int),
                decreases sep_chars@.len() - k,
            {
                out.push(sep_chars[k]);
                k = k + 1;
                proof {
                    assert(out@ =~= base + sep_chars@.subrange(0, k as int));
                }
            }
            proof {
                assert(sep_chars@.subrange(0, sep_chars@.len() as int) =~= sep_chars@);
            }
        }
        let ghost mid = out@;
        let piece = chars_of(v[i].as_str());
        let mut k: usize = 0;
        while k < piece.len()
            invariant
                k <= piece@.len(),
                out@ == mid + piece@.subrange(0, k as int),
            decreases piece@.len() - k,
        {
            out.push(piece[k]);
            k = k + 1;
            proof {
                assert(out@ =~= mid + piece@.subrange(0, k as int));
            }
        }
        proof {
            assert(piece@.subrange(0, piece@.len() as int) =~= piece@);
            if i > 0 {
                assert(out@ =~= join_with(sub.drop_last(), sep@) + sep@ + sub.last());
            } else {
                assert(out@ =~= sub[0]);
            }
        }
        i = i + 1;
    }
    proof {
        assert(string_views(v@).subrange(0, v@.len() as int) =~= string_views(v@));
    }
    out
}

} // verus!
