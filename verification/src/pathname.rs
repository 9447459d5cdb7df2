//! Lexical path components, as the runner compares host paths: `/`
//! separates components, empty and `.` components are skipped.

use vstd::prelude::*;

use crate::policy::path::{is_cur_dir, join_components, stack_view};
use crate::text::{chars_eq, chars_of, string_of};

verus! {

/// `v` with `c` appended when `c` names something.
pub open spec fn keep_component(v: Seq<Seq<char>>, c: Seq<char>) -> Seq<Seq<char>> {
    if c.len() == 0 || is_cur_dir(c) {
        v
    } else {
        v.push(c)
    }
}

/// Left-to-right scan: the components completed so far and the one being read.
pub open spec fn scan_parts(s: Seq<char>) -> (Seq<Seq<char>>, Seq<char>)
    decreases s.len(),
{
    if s.len() == 0 {
        (Seq::empty(), Seq::empty())
    } else {
        let prev = scan_parts(s.drop_last());
        if s.last() == '/' {
            (keep_component(prev.0, prev.1), Seq::empty())
        } else {
            (prev.0, prev.1.push(s.last()))
        }
    }
}

/// The named components of a path.
pub open spec fn components(s: Seq<char>) -> Seq<Seq<char>> {
    keep_component(scan_parts(s).0, scan_parts(s).1)
}

/// A path that starts at the root.
pub open spec fn is_absolute(s: Seq<char>) -> bool {
    s.len() > 0 && s[0] == '/'
}

/// The components of `path` after those of `root`, when `root` is a
/// component-wise prefix of `path` and both are absolute or both relative.
pub open spec fn strip_prefix_spec(root: Seq<char>, path: Seq<char>) -> Option<Seq<Seq<char>>> {
    let r = components(root);
    let a = components(path);
    if is_absolute(root) == is_absolute(path) && r.len() <= a.len() && a.subrange(0, r.len() as int)
        == r {
        Some(a.subrange(r.len() as int, a.len() as int))
    } else {
        None
    }
}

fn is_cur_dir_chars(c: &Vec<char>) -> (r: bool)
    ensures
        r == is_cur_dir(c@),
{
    c.len() == 1 && c[0] == '.'
}

/// The named components of `s`.
pub fn components_of(s: &str) -> (r: Vec<Vec<char>>)
    ensures
        stack_view(r@) == components(s@),
{
    let cs = chars_of(s);
    let mut done: Vec<Vec<char>> = Vec::new();
    let mut cur: Vec<char> = Vec::new();
    let mut i: usize = 0;
    while i < cs.len()
        invariant
            i <= cs@.len(),
            cs@ == s@,
            (stack_view(done@), cur@) == scan_parts(cs@.subrange(0, i as int)),
        decreases cs@.len() - i,
    {
        proof {
            assert(cs@.subrange(0, i + 1).drop_last() =~= cs@.subrange(0, i as int));
        }
        let c = cs[i];
        if c == '/' {
            if cur.len() > 0 && !is_cur_dir_chars(&cur) {
                let ghost before = done@;
                done.push(cur);
                proof {
                    assert(stack_view(done@) =~= stack_view(before).push(cur@));
                }
            }
            cur = Vec::new();
        } else {
            cur.push(c);
        }
        i = i + 1;
    }
    proof {
        assert(cs@.subrange(0, cs@.len() as int) =~= cs@);
    }
    if cur.len() > 0 && !is_cur_dir_chars(&cur) {
        let ghost before = done@;
        done.push(cur);
        proof {
            assert(stack_view(done@) =~= stack_view(before).push(cur@));
        }
    }
    done
}

/// Components joined with `/`.
pub fn join_parts(v: &Vec<Vec<char>>, from: usize) -> (r: String)
    requires
        from <= v@.len(),
    ensures
        r@ == join_components(stack_view(v@).subrange(from as int, v@.len() as int)),
{
    let mut out: Vec<char> = Vec::new();
    let mut i: usize = from;
    while i < v.len()
        invariant
            from <= i <= v@.len(),
            out@ == join_components(stack_view(v@).subrange(from as int, i as int)),
        decreases v@.len() - i,
    {
        let ghost sub = stack_view(v@).subrange(from as int, i + 1);
        proof {
            assert(sub.drop_last() =~= stack_view(v@).subrange(from as int, i as int));
            assert(sub.last() == v@[i as int]@);
        }
        if i > from {
            out.push('/');
        }
        let mut k: usize = 0;
        let ghost base = out@;
        while k < v[i].len()
            invariant
                i < v@.len(),
                k <= v@[i as int]@.len(),
                out@ == base + v@[i as int]@.subrange(0, k as int),
            decreases v@[i as int]@.len() - k,
        {
            out.push(v[i][k]);
            k = k + 1;
            proof {
                assert(out@ =~= base + v@[i as int]@.subrange(0, k as int));
            }
        }
        proof {
            assert(v@[i as int]@.subrange(0, v@[i as int]@.len() as int) =~= v@[i as int]@);
            if i > from {
                assert(out@ =~= join_components(sub.drop_last()) + seq!['/'] + sub.last());
            } else {
                assert(sub.len() == 1);
                assert(out@ =~= sub[0]);
            }
        }
        i = i + 1;
    }
    string_of(&out)
}

/// `path` relative to `root` as `/`-joined components, when `root` is a
/// component-wise prefix of it.
pub fn strip_prefix(root: &str, path: &str) -> (r: Option<String>)
    ensures
        match strip_prefix_spec(root@, path@) {
            Some(rest) => r matches Some(t) && t@ == join_components(rest),
            None => r is None,
        },
{
    let r = components_of(root);
    let a = components_of(path);
    let root_abs = root.unicode_len() > 0 && root.get_char(0) == '/';
    let path_abs = path.unicode_len() > 0 && path.get_char(0) == '/';
    if root_abs != path_abs || r.len() > a.len() {
        return None;
    }
    let mut i: usize = 0;
    while i < r.len()
        invariant
            r@.len() <= a@.len(),
            i <= r@.len(),
            stack_view(r@) == components(root@),
            stack_view(a@) == components(path@),
            is_absolute(root@) == is_absolute(path@),
            forall|k: int| 0 <= k < i ==> stack_view(a@)[k] == stack_view(r@)[k],
        decreases r@.len() - i,
    {
        if !chars_eq(&r[i], &a[i]) {
            proof {
                assert(stack_view(a@).subrange(0, r@.len() as int)[i as int] != stack_view(r@)[i as int]);
            }
            return None;
        }
        i = i + 1;
    }
    proof {
        assert(stack_view(a@).subrange(0, r@.len() as int) =~= stack_view(r@));
    }
    Some(join_parts(&a, r.len()))
}

} // verus!
