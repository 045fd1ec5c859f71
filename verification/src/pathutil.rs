//! Lexical path handling shared by the overlay filesystem: splitting a
//! path into segments, normalization (removing `.` and empty segments
//! and resolving `..` without touching any real storage), and the
//! containment test that scopes backing-image reads to a managed root.

use vstd::prelude::*;
use vstd::string::{StrSliceExecFns, StringExecFns};

use crate::strutil::str_eq;

verus! {

/// The path begins with a separator.
pub open spec fn is_absolute(s: Seq<char>) -> bool {
    s.len() > 0 && s[0] == '/'
}

/// The segments of `s`, split on `/`. Splitting the empty path gives
/// one empty segment, and every path has at least one segment.
pub open spec fn path_segments(s: Seq<char>) -> Seq<Seq<char>>
    decreases s.len(),
{
    if s.len() == 0 {
        seq![Seq::<char>::empty()]
    } else {
        let init = path_segments(s.drop_last());
        if s.last() == '/' {
            init.push(Seq::<char>::empty())
        } else {
            init.update(init.len() - 1, init.last().push(s.last()))
        }
    }
}

pub proof fn lemma_path_segments_nonempty(s: Seq<char>)
    ensures
        path_segments(s).len() >= 1,
    decreases s.len(),
{
    if s.len() > 0 {
        lemma_path_segments_nonempty(s.drop_last());
    }
}

/// The normalized segment stack: empty segments and `.` are dropped,
/// and `..` pops the most recent kept segment, or is dropped when
/// nothing is left to pop.
pub open spec fn norm_stack(segs: Seq<Seq<char>>) -> Seq<Seq<char>>
    decreases segs.len(),
{
    if segs.len() == 0 {
        Seq::<Seq<char>>::empty()
    } else {
        let prev = norm_stack(segs.drop_last());
        let x = segs.last();
        if x.len() == 0 || x == "."@ {
            prev
        } else if x == ".."@ {
            if prev.len() == 0 {
                prev
            } else {
                prev.drop_last()
            }
        } else {
            prev.push(x)
        }
    }
}

/// The segments joined back with `/` between them.
pub open spec fn join_segments(segs: Seq<Seq<char>>) -> Seq<char>
    decreases segs.len(),
{
    if segs.len() == 0 {
        Seq::<char>::empty()
    } else if segs.len() == 1 {
        segs[0]
    } else {
        join_segments(segs.drop_last()) + "/"@ + segs.last()
    }
}

/// Lexical normalization of a path: its kept segment stack joined with
/// `/`, with the leading separator kept for an absolute path. Dot and
/// empty segments vanish and `..` is resolved, so the result of a
/// traversal attempt names the place it would actually reach.
pub open spec fn normalize_spec(s: Seq<char>) -> Seq<char> {
    if is_absolute(s) {
        "/"@ + join_segments(norm_stack(path_segments(s)))
    } else {
        join_segments(norm_stack(path_segments(s)))
    }
}

/// After normalization, `path` lies under `root`: the two agree on
/// absoluteness and `root`'s kept segments are a prefix of `path`'s.
/// Because `..` is resolved first, a parent-directory traversal cannot
/// smuggle a path outside the root.
pub open spec fn contained_in(path: Seq<char>, root: Seq<char>) -> bool {
    is_absolute(path) == is_absolute(root) && norm_stack(path_segments(root)).is_prefix_of(
        norm_stack(path_segments(path)),
    )
}

/// Splits a path into its `/`-separated segments.
pub fn split_segments(s: &str) -> (segs: Vec<String>)
    ensures
        segs.deep_view() == path_segments(s@),
        segs.len() >= 1,
{
    let n = s.unicode_len();
    let mut segs: Vec<String> = Vec::new();
    let mut start: usize = 0;
    let mut i: usize = 0;
    proof {
        assert(s@.subrange(0, 0) =~= Seq::<char>::empty());
        assert(segs.deep_view().push(s@.subrange(0, 0)) =~~= path_segments(s@.subrange(0, 0)));
    }
    while i < n
        invariant
            n == s@.len(),
            start <= i <= n,
            segs.deep_view().push(s@.subrange(start as int, i as int)) == path_segments(
                s@.subrange(0, i as int),
            ),
        decreases n - i,
    {
        let ghost prev_segs = segs.deep_view();
        let ghost prev_start = start as int;
        let c = s.get_char(i);
        if c == '/' {
            let seg = s.substring_char(start, i).to_owned();
            segs.push(seg);
            start = i + 1;
        }
        i += 1;
        proof {
            let pre = s@.subrange(0, i as int);
            assert(pre.drop_last() =~= s@.subrange(0, i - 1));
            assert(pre.last() == s@[i - 1]);
            if c == '/' {
                assert(s@.subrange(start as int, i as int) =~= Seq::<char>::empty());
                assert(segs.deep_view() =~~= prev_segs.push(s@.subrange(prev_start, i - 1)));
                assert(segs.deep_view().push(s@.subrange(start as int, i as int)) =~~= path_segments(pre));
            } else {
                let old_cur = s@.subrange(prev_start, i - 1);
                let init = path_segments(pre.drop_last());
                assert(init == prev_segs.push(old_cur));
                assert(init.last() == old_cur);
                assert(init.update(init.len() - 1, init.last().push(s@[i - 1])) =~~= prev_segs.push(
                    old_cur.push(s@[i - 1]),
                ));
                assert(old_cur.push(s@[i - 1]) =~= s@.subrange(prev_start, i as int));
            }
        }
    }
    let last = s.substring_char(start, n).to_owned();
    segs.push(last);
    proof {
        assert(s@.subrange(0, n as int) =~= s@);
        lemma_path_segments_nonempty(s@);
    }
    segs
}

/// Splits and normalizes a path into its kept segment stack.
pub fn normalized_stack(s: &str) -> (stack: Vec<String>)
    ensures
        stack.deep_view() == norm_stack(path_segments(s@)),
{
    let segs = split_segments(s);
    let mut stack: Vec<String> = Vec::new();
    let mut i: usize = 0;
    while i < segs.len()
        invariant
            i <= segs.len(),
            segs.deep_view() == path_segments(s@),
            stack.deep_view() == norm_stack(segs.deep_view().subrange(0, i as int)),
        decreases segs.len() - i,
    {
        let ghost prev_stack = stack.deep_view();
        let seg: &String = &segs[i];
        if seg.as_str().is_empty() || str_eq(seg.as_str(), ".") {
            // dropped from the stack
        } else if str_eq(seg.as_str(), "..") {
            if stack.len() > 0 {
                stack.pop();
            }
        } else {
            let kept = seg.clone();
            stack.push(kept);
        }
        i += 1;
        proof {
            let pre = segs.deep_view().subrange(0, i as int);
            assert(pre.drop_last() =~= segs.deep_view().subrange(0, i - 1));
            assert(pre.last() == segs.deep_view()[i - 1]);
            assert(segs.deep_view()[i - 1] == segs[i - 1]@);
            assert(stack.deep_view() =~~= norm_stack(pre));
        }
    }
    proof {
        assert(segs.deep_view().subrange(0, segs.len() as int) =~= segs.deep_view());
    }
    stack
}

/// Normalizes a path lexically, resolving `.`, `..` and repeated
/// separators without consulting any storage.
pub fn normalize_path(s: &str) -> (r: String)
    ensures
        r@ == normalize_spec(s@),
{
    let stack = normalized_stack(s);
    let n = s.unicode_len();
    let abs = n > 0 && s.get_char(0) == '/';
    let ghost prefix: Seq<char> = if abs { "/"@ } else { Seq::<char>::empty() };
    let mut out = String::new();
    if abs {
        out.append("/");
    }
    assert(out@ == prefix);
    let mut j: usize = 0;
    while j < stack.len()
        invariant
            j <= stack.len(),
            out@ == prefix + join_segments(stack.deep_view().subrange(0, j as int)),
        decreases stack.len() - j,
    {
        let ghost prev_out = out@;
        if j > 0 {
            out.append("/");
        }
        out.append(stack[j].as_str());
        j += 1;
        proof {
            let pre = stack.deep_view().subrange(0, j as int);
            assert(pre.drop_last() =~= stack.deep_view().subrange(0, j - 1));
            assert(pre.last() == stack.deep_view()[j - 1]);
            if j == 1 {
                assert(join_segments(pre) == pre[0]);
                assert(out@ =~= prefix + join_segments(pre));
            } else {
                assert(join_segments(pre) == join_segments(pre.drop_last()) + "/"@ + pre.last());
                assert(out@ =~= prefix + join_segments(pre));
            }
        }
    }
    proof {
        assert(stack.deep_view().subrange(0, stack.len() as int) =~= stack.deep_view());
        if stack.len() == 0 {
            assert(out@ =~= prefix + join_segments(stack.deep_view()));
        }
    }
    out
}

/// Decides containment of `path` under `root` after normalizing both.
pub fn is_path_within(path: &str, root: &str) -> (r: bool)
    ensures
        r == contained_in(path@, root@),
{
    let pn = path.unicode_len();
    let rn = root.unicode_len();
    let abs_p = pn > 0 && path.get_char(0) == '/';
    let abs_r = rn > 0 && root.get_char(0) == '/';
    if abs_p != abs_r {
        return false;
    }
    let np = normalized_stack(path);
    let nr = normalized_stack(root);
    if nr.len() > np.len() {
        return false;
    }
    let mut j: usize = 0;
    while j < nr.len()
        invariant
            j <= nr.len() <= np.len(),
            np.deep_view() == norm_stack(path_segments(path@)),
            nr.deep_view() == norm_stack(path_segments(root@)),
            forall|k: int| 0 <= k < j ==> nr.deep_view()[k] == np.deep_view()[k],
        decreases nr.len() - j,
    {
        if !str_eq(nr[j].as_str(), np[j].as_str()) {
            assert(!nr.deep_view().is_prefix_of(np.deep_view())) by {
                let pre = np.deep_view().subrange(0, nr.deep_view().len() as int);
                assert(pre[j as int] == np.deep_view()[j as int]);
            }
            return false;
        }
        j += 1;
    }
    proof {
        assert(nr.deep_view() =~= np.deep_view().subrange(0, nr.deep_view().len() as int));
    }
    true
}

} // verus!
