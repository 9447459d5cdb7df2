//! Lexical resolution of model-supplied paths inside a workspace root.

use vstd::prelude::*;

use crate::domain::error::{ErrorBody, ErrorCode};
use crate::policy::workspace::Workspace;
use crate::text::{chars_of, ends_with, has_char, starts_with, string_of, vec_has_char};

verus! {

/// `c` is the component `.`.
pub open spec fn is_cur_dir(c: Seq<char>) -> bool {
    c.len() == 1 && c[0] == '.'
}

/// `c` is the component `..`.
pub open spec fn is_parent_dir(c: Seq<char>) -> bool {
    c.len() == 2 && c[0] == '.' && c[1] == '.'
}

/// A component that names an entry: non-empty, not `.` or `..`, no `/`.
pub open spec fn is_normal_component(c: Seq<char>) -> bool {
    c.len() > 0 && !is_cur_dir(c) && !is_parent_dir(c) && !has_char(c, '/')
}

/// Feeds one component to a stack of normal components: empty and `.`
/// are skipped, `..` pops and fails on an empty stack, anything else is
/// pushed. Failure is sticky.
pub open spec fn push_component(st: Option<Seq<Seq<char>>>, comp: Seq<char>) -> Option<
    Seq<Seq<char>>,
> {
    match st {
        None => None,
        Some(v) => if comp.len() == 0 || is_cur_dir(comp) {
            Some(v)
        } else if is_parent_dir(comp) {
            if v.len() == 0 {
                None
            } else {
                Some(v.drop_last())
            }
        } else {
            Some(v.push(comp))
        },
    }
}

/// Left-to-right scan of `s`: the stack after every `/`-terminated
/// component, and the component still being read.
pub open spec fn scan_path(s: Seq<char>) -> (Option<Seq<Seq<char>>>, Seq<char>)
    decreases s.len(),
{
    if s.len() == 0 {
        (Some(Seq::empty()), Seq::empty())
    } else {
        let prev = scan_path(s.drop_last());
        if s.last() == '/' {
            (push_component(prev.0, prev.1), Seq::empty())
        } else {
            (prev.0, prev.1.push(s.last()))
        }
    }
}

/// The normal components a relative path denotes, or `None` when `..`
/// would climb above its start.
pub open spec fn normalize_relative(s: Seq<char>) -> Option<Seq<Seq<char>>> {
    push_component(scan_path(s).0, scan_path(s).1)
}

/// Components joined with `/`.
pub open spec fn join_components(v: Seq<Seq<char>>) -> Seq<char>
    decreases v.len(),
{
    if v.len() == 0 {
        Seq::empty()
    } else if v.len() == 1 {
        v[0]
    } else {
        join_components(v.drop_last()) + seq!['/'] + v.last()
    }
}

/// `root` joined with relative components, with one `/` between them.
pub open spec fn join_under(root: Seq<char>, v: Seq<Seq<char>>) -> Seq<char> {
    if ends_with(root, seq!['/']) {
        root + join_components(v)
    } else {
        root + seq!['/'] + join_components(v)
    }
}

/// Where `relative` lands under `root`, or the refusal message.
pub open spec fn resolve_spec(root: Seq<char>, relative: Seq<char>) -> Result<
    Seq<char>,
    Seq<char>,
> {
    if relative.len() == 0 || relative[0] == '/' {
        Err("absolute or empty path"@)
    } else if has_char(relative, '\0') {
        Err("NUL in path"@)
    } else {
        match normalize_relative(relative) {
            None => Err("`..` escapes the workspace"@),
            Some(v) => Ok(join_under(root, v)),
        }
    }
}

/// The stack view of a vector of component buffers.
pub open spec fn stack_view(v: Seq<Vec<char>>) -> Seq<Seq<char>> {
    v.map_values(|c: Vec<char>| c@)
}

fn is_cur_dir_exec(c: &Vec<char>) -> (r: bool)
    ensures
        r == is_cur_dir(c@),
{
    c.len() == 1 && c[0] == '.'
}

fn is_parent_dir_exec(c: &Vec<char>) -> (r: bool)
    ensures
        r == is_parent_dir(c@),
{
    c.len() == 2 && c[0] == '.' && c[1] == '.'
}

/// Applies [`push_component`] to the stack in place; returns `false` on failure.
fn push_component_exec(stack: &mut Vec<Vec<char>>, comp: Vec<char>) -> (ok: bool)
    ensures
        ok ==> push_component(Some(stack_view(old(stack)@)), comp@) == Some(
            stack_view(final(stack)@),
        ),
        !ok ==> push_component(Some(stack_view(old(stack)@)), comp@) is None,
{
    if comp.len() == 0 || is_cur_dir_exec(&comp) {
        true
    } else if is_parent_dir_exec(&comp) {
        if stack.len() == 0 {
            false
        } else {
            let _ = stack.pop();
            proof {
                assert(stack_view(stack@) =~= stack_view(old(stack)@).drop_last());
            }
            true
        }
    } else {
        stack.push(comp);
        proof {
            assert(stack_view(stack@) =~= stack_view(old(stack)@).push(comp@));
        }
        true
    }
}

/// The normal components of a relative path, or `None` when `..` climbs
/// above its start.
pub fn normalize_components(rel: &Vec<char>) -> (r: Option<Vec<Vec<char>>>)
    ensures
        match r {
            Some(v) => normalize_relative(rel@) == Some(stack_view(v@)),
            None => normalize_relative(rel@) is None,
        },
{
    let mut stack: Vec<Vec<char>> = Vec::new();
    let mut cur: Vec<char> = Vec::new();
    let mut failed = false;
    let mut i: usize = 0;
    while i < rel.len()
        invariant
            i <= rel@.len(),
            scan_path(rel@.subrange(0, i as int)).1 == cur@,
            failed ==> scan_path(rel@.subrange(0, i as int)).0 is None,
            !failed ==> scan_path(rel@.subrange(0, i as int)).0 == Some(stack_view(stack@)),
        decreases rel@.len() - i,
    {
        let c = rel[i];
        proof {
            assert(rel@.subrange(0, i + 1).drop_last() =~= rel@.subrange(0, i as int));
        }
        if c == '/' {
            let comp = cur;
            cur = Vec::new();
            if !failed {
                let ok = push_component_exec(&mut stack, comp);
                if !ok {
                    failed = true;
                }
            }
        } else {
            cur.push(c);
        }
        i = i + 1;
    }
    proof {
        assert(rel@.subrange(0, rel@.len() as int) =~= rel@);
    }
    if failed {
        return None;
    }
    let ok = push_component_exec(&mut stack, cur);
    if ok {
        Some(stack)
    } else {
        None
    }
}

/// Joins components with `/` after `root`.
pub fn join_under_exec(root: &Vec<char>, v: &Vec<Vec<char>>) -> (r: Vec<char>)
    ensures
        r@ == join_under(root@, stack_view(v@)),
{
    let mut out: Vec<char> = root.clone();
    let slash = vec!['/'];
    let root_slash = crate::text::vec_ends_with(root, &slash);
    if !root_slash {
        out.push('/');
    }
    let ghost base = out@;
    proof {
        assert(slash@ =~= seq!['/']);
        if !root_slash {
            assert(base =~= root@ + seq!['/']);
        } else {
            assert(base =~= root@);
        }
    }
    let mut i: usize = 0;
    while i < v.len()
        invariant
            i <= v@.len(),
            out@ == base + join_components(stack_view(v@.subrange(0, i as int))),
        decreases v@.len() - i,
    {
        let ghost before = out@;
        if i > 0 {
            out.push('/');
        }
        let comp = &v[i];
        let mut k: usize = 0;
        let ghost mid = out@;
        while k < comp.len()
            invariant
                k <= comp@.len(),
                out@ == mid + comp@.subrange(0, k as int),
            decreases comp@.len() - k,
        {
            out.push(comp[k]);
            k = k + 1;
            proof {
                assert(out@ =~= mid + comp@.subrange(0, k as int));
            }
        }
        proof {
            let s1 = stack_view(v@.subrange(0, i + 1));
            assert(s1.drop_last() =~= stack_view(v@.subrange(0, i as int)));
            assert(s1.last() == comp@);
            assert(comp@.subrange(0, comp@.len() as int) =~= comp@);
            if i == 0 {
                assert(s1.len() == 1);
                assert(join_components(stack_view(v@.subrange(0, 0))) =~= Seq::<char>::empty());
                assert(out@ =~= base + join_components(s1));
            } else {
                assert(out@ =~= base + join_components(s1));
            }
        }
        i = i + 1;
    }
    proof {
        assert(v@.subrange(0, v@.len() as int) =~= v@);
    }
    out
}

/// Resolve a model-supplied path inside a registered workspace.
/// Relative paths only. `..` that would leave the root is rejected.
/// Absolute paths, which include other workspace roots, are rejected.
/// The root is used as registered; callers canonicalize it first.
pub fn resolve_path(workspace: &Workspace, relative: &str) -> (r: Result<String, ErrorBody>)
    ensures
        match r {
            Ok(p) => resolve_spec(workspace.root@, relative@) == Ok::<Seq<char>, Seq<char>>(p@),
            Err(e) => e.code == ErrorCode::PathEscape && e.operation_id is None
                && resolve_spec(workspace.root@, relative@) == Err::<Seq<char>, Seq<char>>(
                e.message@,
            ),
        },
{
    let rel = chars_of(relative);
    if rel.len() == 0 || rel[0] == '/' {
        return Err(ErrorBody::new(ErrorCode::PathEscape, "absolute or empty path"));
    }
    if vec_has_char(&rel, '\0') {
        return Err(ErrorBody::new(ErrorCode::PathEscape, "NUL in path"));
    }
    match normalize_components(&rel) {
        None => Err(ErrorBody::new(ErrorCode::PathEscape, "`..` escapes the workspace")),
        Some(v) => {
            let root = chars_of(workspace.root.as_str());
            let joined = join_under_exec(&root, &v);
            Ok(string_of(&joined))
        },
    }
}

/// Every component in `v` names an entry.
pub open spec fn all_normal(v: Seq<Seq<char>>) -> bool {
    forall|i: int| 0 <= i < v.len() ==> is_normal_component(#[trigger] v[i])
}

proof fn lemma_push_component_normal(st: Option<Seq<Seq<char>>>, comp: Seq<char>)
    requires
        st matches Some(v) ==> all_normal(v),
        !has_char(comp, '/'),
    ensures
        push_component(st, comp) matches Some(w) ==> all_normal(w),
{
    if let Some(v) = st {
        if comp.len() == 0 || is_cur_dir(comp) {
        } else if is_parent_dir(comp) {
            if v.len() > 0 {
                assert forall|i: int| 0 <= i < v.drop_last().len() implies is_normal_component(
                    #[trigger] v.drop_last()[i],
                ) by {
                    assert(v.drop_last()[i] == v[i]);
                }
            }
        } else {
            let w = v.push(comp);
            assert forall|i: int| 0 <= i < w.len() implies is_normal_component(#[trigger] w[i]) by {
                if i < v.len() {
                    assert(w[i] == v[i]);
                }
            }
        }
    }
}

proof fn lemma_scan_path_normal(s: Seq<char>)
    ensures
        !has_char(scan_path(s).1, '/'),
        scan_path(s).0 matches Some(v) ==> all_normal(v),
    decreases s.len(),
{
    if s.len() > 0 {
        lemma_scan_path_normal(s.drop_last());
        let prev = scan_path(s.drop_last());
        if s.last() == '/' {
            lemma_push_component_normal(prev.0, prev.1);
            assert(!has_char(Seq::<char>::empty(), '/'));
        } else {
            let cur = prev.1.push(s.last());
            assert forall|i: int| 0 <= i < cur.len() implies cur[i] != '/' by {
                if i < prev.1.len() {
                    assert(cur[i] == prev.1[i]);
                }
            }
        }
    }
}

proof fn lemma_join_under_prefix(root: Seq<char>, v: Seq<Seq<char>>)
    ensures
        starts_with(join_under(root, v), root),
{
    let j = join_under(root, v);
    if ends_with(root, seq!['/']) {
        assert(j.subrange(0, root.len() as int) =~= root);
    } else {
        assert(j.subrange(0, root.len() as int) =~= root);
    }
}

/// A path that resolves lands under the root: it is the root followed by
/// entry names only, so no `..`, `.`, empty or `/`-bearing component
/// survives resolution.
pub proof fn lemma_resolved_path_stays_under_root(root: Seq<char>, relative: Seq<char>)
    requires
        resolve_spec(root, relative) is Ok,
    ensures
        starts_with(resolve_spec(root, relative)->Ok_0, root),
        exists|v: Seq<Seq<char>>|
            #![trigger join_under(root, v)]
            resolve_spec(root, relative)->Ok_0 == join_under(root, v) && all_normal(v),
{
    lemma_scan_path_normal(relative);
    lemma_push_component_normal(scan_path(relative).0, scan_path(relative).1);
    let v = normalize_relative(relative)->Some_0;
    lemma_join_under_prefix(root, v);
}


/// One character of the left-to-right scan of [`scan_path`].
pub open spec fn scan_step(st: (Option<Seq<Seq<char>>>, Seq<char>), c: char) -> (
    Option<Seq<Seq<char>>>,
    Seq<char>,
) {
    if c == '/' {
        (push_component(st.0, st.1), Seq::empty())
    } else {
        (st.0, st.1.push(c))
    }
}

/// The scan continued from state `st` over `y`.
pub open spec fn scan_from(st: (Option<Seq<Seq<char>>>, Seq<char>), y: Seq<char>) -> (
    Option<Seq<Seq<char>>>,
    Seq<char>,
)
    decreases y.len(),
{
    if y.len() == 0 {
        st
    } else {
        scan_step(scan_from(st, y.drop_last()), y.last())
    }
}

proof fn lemma_scan_concat(x: Seq<char>, y: Seq<char>)
    ensures
        scan_path(x + y) == scan_from(scan_path(x), y),
    decreases y.len(),
{
    if y.len() == 0 {
        assert(x + y =~= x);
    } else {
        lemma_scan_concat(x, y.drop_last());
        assert((x + y).drop_last() =~= x + y.drop_last());
        assert((x + y).last() == y.last());
    }
}

proof fn lemma_scan_from_concat(
    st: (Option<Seq<Seq<char>>>, Seq<char>),
    y: Seq<char>,
    z: Seq<char>,
)
    ensures
        scan_from(st, y + z) == scan_from(scan_from(st, y), z),
    decreases z.len(),
{
    if z.len() == 0 {
        assert(y + z =~= y);
    } else {
        lemma_scan_from_concat(st, y, z.drop_last());
        assert((y + z).drop_last() =~= y + z.drop_last());
        assert((y + z).last() == z.last());
    }
}

proof fn lemma_scan_word(st: (Option<Seq<Seq<char>>>, Seq<char>), q: Seq<char>)
    requires
        !has_char(q, '/'),
    ensures
        scan_from(st, q) == (st.0, st.1 + q),
    decreases q.len(),
{
    if q.len() == 0 {
        assert(st.1 + q =~= st.1);
    } else {
        assert(!has_char(q.drop_last(), '/')) by {
            if has_char(q.drop_last(), '/') {
                let i = choose|i: int| 0 <= i < q.drop_last().len() && q.drop_last()[i] == '/';
                assert(q[i] == '/');
            }
        }
        lemma_scan_word(st, q.drop_last());
        assert(q.last() != '/') by {
            assert(q[q.len() - 1] == q.last());
        }
        assert((st.1 + q.drop_last()).push(q.last()) =~= st.1 + q);
    }
}

proof fn lemma_has_char_concat(a: Seq<char>, b: Seq<char>, c: char)
    ensures
        has_char(a + b, c) <==> has_char(a, c) || has_char(b, c),
{
    if has_char(a + b, c) {
        let i = choose|i: int| 0 <= i < (a + b).len() && (a + b)[i] == c;
        if i >= a.len() {
            assert(b[i - a.len()] == c);
        }
    }
    if has_char(a, c) {
        let i = choose|i: int| 0 <= i < a.len() && a[i] == c;
        assert((a + b)[i] == c);
    }
    if has_char(b, c) {
        let i = choose|i: int| 0 <= i < b.len() && b[i] == c;
        assert((a + b)[a.len() + i] == c);
    }
}

/// A `..` undoes the component just before it: resolving `a/q/../b`
/// lands where resolving `a/b` does, or is refused exactly as that is,
/// for any `a` and `b` and any entry name `q`.
pub proof fn lemma_parent_dir_undoes_last_component(
    root: Seq<char>,
    a: Seq<char>,
    q: Seq<char>,
    b: Seq<char>,
)
    requires
        is_normal_component(q),
        !has_char(q, '\0'),
    ensures
        resolve_spec(root, a + seq!['/'] + q + seq!['/', '.', '.', '/'] + b) == resolve_spec(
            root,
            a + seq!['/'] + b,
        ),
{
    let dd = seq!['/', '.', '.', '/'];
    let x2 = a + seq!['/'];
    let x1 = x2 + q + dd;
    let s1 = a + seq!['/'] + q + dd + b;
    let s2 = a + seq!['/'] + b;
    assert(s1 =~= x1 + b);
    assert(s2 =~= x2 + b);
    // Same first character, so the same answer for an absolute or empty path.
    assert(s1[0] == s2[0]) by {
        if a.len() == 0 {
            assert(s1[0] == '/');
            assert(s2[0] == '/');
        } else {
            assert(s1[0] == a[0]);
            assert(s2[0] == a[0]);
        }
    }
    // The same NUL answer.
    lemma_has_char_concat(a, seq!['/'], '\0');
    lemma_has_char_concat(a + seq!['/'], q, '\0');
    lemma_has_char_concat(a + seq!['/'] + q, dd, '\0');
    lemma_has_char_concat(a + seq!['/'] + q + dd, b, '\0');
    lemma_has_char_concat(a + seq!['/'], b, '\0');
    assert(!has_char(seq!['/'], '\0')) by {
        if has_char(seq!['/'], '\0') {
            let i = choose|i: int| 0 <= i < 1 && seq!['/'][i] == '\0';
        }
    }
    assert(!has_char(dd, '\0')) by {
        if has_char(dd, '\0') {
            let i = choose|i: int| 0 <= i < 4 && dd[i] == '\0';
        }
    }
    assert(has_char(s1, '\0') == has_char(s2, '\0'));
    // The same components.
    lemma_scan_concat(x1, b);
    lemma_scan_concat(x2, b);
    lemma_scan_concat(x2, q + dd);
    assert(x1 =~= x2 + (q + dd));
    let st = scan_path(x2);
    assert(x2.drop_last() =~= a);
    assert(st == (push_component(scan_path(a).0, scan_path(a).1), Seq::<char>::empty()));
    lemma_scan_from_concat(st, q, dd);
    lemma_scan_word(st, q);
    assert(st.1 + q =~= q);
    let mid = (st.0, q);
    assert(!is_cur_dir(q) && !is_parent_dir(q) && q.len() > 0);
    assert(is_parent_dir(seq!['.', '.']));
    reveal_with_fuel(scan_from, 5);
    assert(dd.drop_last() =~= seq!['/', '.', '.']);
    assert(dd.drop_last().drop_last() =~= seq!['/', '.']);
    assert(dd.drop_last().drop_last().drop_last() =~= seq!['/']);
    assert(dd.drop_last().drop_last().drop_last().drop_last() =~= Seq::<char>::empty());
    assert(seq!['.'].push('.') =~= seq!['.', '.']);
    assert(Seq::<char>::empty().push('.') =~= seq!['.']);
    match st.0 {
        None => {
            assert(scan_from(mid, dd) == st);
        },
        Some(v) => {
            assert(v.push(q).drop_last() =~= v);
            assert(scan_from(mid, dd) == st);
        },
    }
    assert(scan_path(x1) == scan_path(x2));
}


proof fn lemma_scan_failure_sticky(st: (Option<Seq<Seq<char>>>, Seq<char>), y: Seq<char>)
    requires
        st.0 is None,
    ensures
        scan_from(st, y).0 is None,
    decreases y.len(),
{
    if y.len() > 0 {
        lemma_scan_failure_sticky(st, y.drop_last());
    }
}

/// A `.` component, or an empty one, changes nothing: resolving `a/./b`
/// or `a//b` gives what resolving `a/b` gives.
pub proof fn lemma_current_dir_is_skipped(root: Seq<char>, a: Seq<char>, b: Seq<char>)
    ensures
        resolve_spec(root, a + seq!['/'] + seq!['.', '/'] + b) == resolve_spec(
            root,
            a + seq!['/'] + b,
        ),
        resolve_spec(root, a + seq!['/'] + seq!['/'] + b) == resolve_spec(root, a + seq!['/'] + b),
{
    let x2 = a + seq!['/'];
    let st = scan_path(x2);
    assert(x2.drop_last() =~= a);
    assert(st.1 == Seq::<char>::empty());
    lemma_has_char_concat(a, seq!['/'], '\0');
    lemma_has_char_concat(a + seq!['/'], b, '\0');
    assert(!has_char(seq!['/'], '\0')) by {
        if has_char(seq!['/'], '\0') {
            let i = choose|i: int| 0 <= i < 1 && seq!['/'][i] == '\0';
        }
    }
    reveal_with_fuel(scan_from, 3);
    assert(Seq::<char>::empty().push('.') =~= seq!['.']);
    // `./`
    let dot = seq!['.', '/'];
    let s1 = a + seq!['/'] + dot + b;
    lemma_has_char_concat(a + seq!['/'], dot, '\0');
    lemma_has_char_concat(a + seq!['/'] + dot, b, '\0');
    assert(!has_char(dot, '\0')) by {
        if has_char(dot, '\0') {
            let i = choose|i: int| 0 <= i < 2 && dot[i] == '\0';
        }
    }
    assert(s1 =~= (x2 + dot) + b);
    lemma_scan_concat(x2 + dot, b);
    lemma_scan_concat(x2, b);
    lemma_scan_concat(x2, dot);
    assert(dot.drop_last() =~= seq!['.']);
    assert(dot.drop_last().drop_last() =~= Seq::<char>::empty());
    assert(is_cur_dir(seq!['.']));
    assert(scan_from(st, dot) == st);
    assert(s1[0] == (a + seq!['/'] + b)[0]) by {
        if a.len() == 0 {
            assert(s1[0] == '/');
        } else {
            assert(s1[0] == a[0]);
        }
    }
    // `/`
    let sl = seq!['/'];
    let s3 = a + seq!['/'] + sl + b;
    lemma_has_char_concat(a + seq!['/'], sl, '\0');
    lemma_has_char_concat(a + seq!['/'] + sl, b, '\0');
    assert(s3 =~= (x2 + sl) + b);
    lemma_scan_concat(x2 + sl, b);
    lemma_scan_concat(x2, sl);
    assert(sl.drop_last() =~= Seq::<char>::empty());
    assert(scan_from(st, sl) == st);
    assert(s3[0] == (a + seq!['/'] + b)[0]) by {
        if a.len() == 0 {
            assert(s3[0] == '/');
        } else {
            assert(s3[0] == a[0]);
        }
    }
}

/// A path that starts by climbing with `..` is refused: it would leave
/// the workspace root.
pub proof fn lemma_leading_parent_dir_escapes(root: Seq<char>, b: Seq<char>)
    ensures
        resolve_spec(root, seq!['.', '.']) is Err,
        resolve_spec(root, seq!['.', '.', '/'] + b) is Err,
{
    let head = seq!['.', '.'];
    reveal_with_fuel(scan_path, 3);
    assert(head.drop_last() =~= seq!['.']);
    assert(head.drop_last().drop_last() =~= Seq::<char>::empty());
    assert(Seq::<char>::empty().push('.') =~= seq!['.']);
    assert(seq!['.'].push('.') =~= head);
    assert(scan_path(head) == (Some(Seq::<Seq<char>>::empty()), head));
    assert(is_parent_dir(head));
    let x = seq!['.', '.', '/'];
    assert(x.drop_last() =~= head);
    assert(scan_path(x).0 is None);
    lemma_scan_concat(x, b);
    lemma_scan_failure_sticky(scan_path(x), b);
    assert((x + b)[0] == '.');
}

} // verus!
