//! Paths as `/`-separated text: joining, the last segment, the parent, the
//! chain of ancestors, and lying inside a directory.

use vstd::prelude::*;
use crate::text::{to_chars, from_chars, slice_chars, starts_with, has_at};

verus! {

/// `b` appended to `a` as a further path segment: an absolute `b` replaces
/// `a`, and a separator is put between the two where `a` does not end in one.
pub open spec fn joined(a: Seq<char>, b: Seq<char>) -> Seq<char> {
    if b.len() > 0 && b[0] == '/' {
        b
    } else if a.len() > 0 && a.last() != '/' {
        a.push('/') + b
    } else {
        a + b
    }
}

/// The position of the last `/` before `upto`, or -1.
pub open spec fn last_slash(s: Seq<char>, upto: int) -> int
    decreases upto,
{
    if upto <= 0 {
        -1
    } else if s[upto - 1] == '/' {
        upto - 1
    } else {
        last_slash(s, upto - 1)
    }
}

/// The text after the last `/`; all of `s` where it holds none.
pub open spec fn file_name_of(s: Seq<char>) -> Seq<char> {
    s.skip(last_slash(s, s.len() as int) + 1)
}

/// The path without its last segment. The empty path and the root have none.
pub open spec fn parent_of(s: Seq<char>) -> Option<Seq<char>> {
    let k = last_slash(s, s.len() as int);
    if s.len() == 0 {
        None
    } else if k < 0 {
        Some(Seq::empty())
    } else if k == 0 {
        if s.len() == 1 {
            None
        } else {
            Some(seq!['/'])
        }
    } else {
        Some(s.take(k))
    }
}

/// `path` is `root` or lies below it: `root` is a prefix of `path` that ends
/// where a segment of `path` ends.
pub open spec fn lies_inside(path: Seq<char>, root: Seq<char>) -> bool {
    &&& root.len() > 0
    &&& starts_with(path, root)
    &&& (path.len() == root.len() || root.last() == '/' || path[root.len() as int] == '/')
}

/// A path, then its parent, and so on up to the last one that has a parent.
pub open spec fn ancestors_of(s: Seq<char>) -> Seq<Seq<char>>
    decreases s.len(),
{
    match parent_of(s) {
        Some(p) => {
            proof {
                lemma_last_slash_bounds(s, s.len() as int);
            }
            seq![s] + ancestors_of(p)
        },
        None => seq![s],
    }
}

/// The last separator before a position lies before it, is a separator,
/// and nothing after it up to the position is one.
pub proof fn lemma_last_slash_bounds(s: Seq<char>, upto: int)
    requires
        upto <= s.len(),
    ensures
        -1 <= last_slash(s, upto) < upto || (upto <= 0 && last_slash(s, upto) == -1),
        last_slash(s, upto) >= 0 ==> s[last_slash(s, upto)] == '/',
        forall|j: int| last_slash(s, upto) < j < upto && 0 <= j ==> s[j] != '/',
    decreases upto,
{
    if upto > 0 && s[upto - 1] != '/' {
        lemma_last_slash_bounds(s, upto - 1);
    }
}

/// Joins two paths.
pub fn join(a: &str, b: &str) -> (r: String)
    ensures
        r@ == joined(a@, b@),
{
    let av = to_chars(a);
    let bv = to_chars(b);
    if bv.len() > 0 && bv[0] == '/' {
        String::from_str(b)
    } else {
        let mut r = String::from_str(a);
        if av.len() > 0 && av[av.len() - 1] != '/' {
            r.push('/');
        }
        r.append(b);
        r
    }
}

fn find_last_slash(v: &Vec<char>) -> (k: Option<usize>)
    ensures
        match k {
            Some(i) => i < v@.len() && i as int == last_slash(v@, v@.len() as int),
            None => last_slash(v@, v@.len() as int) == -1,
        },
{
    let mut i: usize = v.len();
    while i > 0
        invariant
            i <= v.len(),
            last_slash(v@, v@.len() as int) == last_slash(v@, i as int),
        decreases i,
    {
        if v[i - 1] == '/' {
            return Some(i - 1);
        }
        i -= 1;
    }
    None
}

/// The last segment of a path.
pub fn file_name(path: &str) -> (r: String)
    ensures
        r@ == file_name_of(path@),
{
    let v = to_chars(path);
    let start: usize = match find_last_slash(&v) {
        Some(k) => k + 1,
        None => 0,
    };
    let tail = slice_chars(&v, start, v.len());
    assert(tail@ =~= file_name_of(path@));
    from_chars(&tail)
}

/// The path without its last segment, if it has a parent.
pub fn parent(path: &str) -> (r: Option<String>)
    ensures
        r.is_some() == parent_of(path@).is_some(),
        r matches Some(p) ==> p@ == parent_of(path@).unwrap(),
{
    let v = to_chars(path);
    if v.len() == 0 {
        return None;
    }
    match find_last_slash(&v) {
        None => Some(String::new()),
        Some(k) => {
            if k == 0 {
                if v.len() == 1 {
                    None
                } else {
                    let mut s = String::new();
                    s.push('/');
                    assert(s@ =~= seq!['/']);
                    Some(s)
                }
            } else {
                let head = slice_chars(&v, 0, k);
                assert(head@ =~= path@.take(k as int));
                Some(from_chars(&head))
            }
        },
    }
}

/// Whether `path` is `root` or lies below it.
pub fn is_inside(path: &str, root: &str) -> (b: bool)
    ensures
        b == lies_inside(path@, root@),
{
    let p = to_chars(path);
    let r = to_chars(root);
    if r.len() == 0 || r.len() > p.len() {
        return false;
    }
    if !has_at(&p, &r, 0) {
        assert(p@.subrange(0, r@.len() as int) =~= p@.take(r@.len() as int));
        return false;
    }
    assert(p@.subrange(0, r@.len() as int) =~= p@.take(r@.len() as int));
    p.len() == r.len() || r[r.len() - 1] == '/' || p[r.len()] == '/'
}

/// The path itself, then each of its ancestors in turn.
pub fn ancestors(path: &str) -> (r: Vec<String>)
    ensures
        r@.len() == ancestors_of(path@).len(),
        forall|i: int| 0 <= i < r@.len() ==> (#[trigger] r@[i])@ == ancestors_of(path@)[i],
{
    let mut out: Vec<String> = Vec::new();
    let mut current: String = String::from_str(path);
    let ghost mut done: Seq<Seq<char>> = Seq::empty();
    proof {
        assert(done + ancestors_of(current@) =~= ancestors_of(path@));
    }
    loop
        invariant_except_break
            done + ancestors_of(current@) == ancestors_of(path@),
        invariant
            done.len() == out@.len(),
            forall|i: int| 0 <= i < out@.len() ==> (#[trigger] out@[i])@ == done[i],
        ensures
            done == ancestors_of(path@),
        decreases current@.len(),
    {
        let next = parent(current.as_str());
        proof {
            lemma_last_slash_bounds(current@, current@.len() as int);
        }
        match next {
            None => {
                let ghost before = done;
                proof {
                    done = done.push(current@);
                    assert(done =~= before + ancestors_of(current@));
                }
                out.push(current);
                break;
            },
            Some(p) => {
                let ghost before = done;
                proof {
                    done = done.push(current@);
                    assert(done + ancestors_of(p@) =~= before + ancestors_of(current@));
                }
                out.push(current);
                current = p;
            },
        }
    }
    out
}

} // verus!
