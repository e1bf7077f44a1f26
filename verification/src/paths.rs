//! The path model: a path is its sequence of characters, absolute exactly
//! when it starts with the separator, and joining appends one segment.

use vstd::prelude::*;

verus! {

/// A path is absolute exactly when its first character is the separator.
pub open spec fn is_absolute_spec(p: Seq<char>) -> bool {
    p.len() > 0 && p[0] == '/'
}

/// Joining appends one further segment, inserting a separator unless the
/// base already ends with one; joining onto an empty base gives the
/// segment alone.
pub open spec fn join_spec(base: Seq<char>, seg: Seq<char>) -> Seq<char> {
    if base.len() == 0 {
        seg
    } else if base.last() == '/' {
        base + seg
    } else {
        base + seq!['/'] + seg
    }
}

/// Index of the last occurrence of `c` in `s`, or -1 when `c` does not
/// occur.
pub open spec fn last_occurrence(s: Seq<char>, c: char) -> int
    decreases s.len(),
{
    if s.len() == 0 {
        -1
    } else if s.last() == c {
        s.len() - 1
    } else {
        last_occurrence(s.drop_last(), c)
    }
}

pub proof fn lemma_last_occurrence(s: Seq<char>, c: char)
    ensures
        -1 <= last_occurrence(s, c) < s.len(),
        last_occurrence(s, c) >= 0 ==> s[last_occurrence(s, c)] == c,
        forall|j: int| last_occurrence(s, c) < j < s.len() ==> s[j] != c,
    decreases s.len(),
{
    if s.len() == 0 {
    } else if s.last() == c {
    } else {
        lemma_last_occurrence(s.drop_last(), c);
        assert forall|j: int| last_occurrence(s, c) < j < s.len() implies s[j] != c by {
            if j < s.len() - 1 {
                assert(s.drop_last()[j] == s[j]);
            }
        }
    }
}

/// Removing the final segment: everything after the last separator goes,
/// together with that separator; a path whose only separator leads it
/// keeps the lone separator; a path with no separator becomes empty.
pub open spec fn pop_spec(p: Seq<char>) -> Seq<char> {
    let i = last_occurrence(p, '/');
    if i == -1 {
        Seq::empty()
    } else if i == 0 {
        seq!['/']
    } else {
        p.take(i)
    }
}

/// `seg` stands at the end of `p` as a whole separator-delimited segment.
pub open spec fn has_final_segment(p: Seq<char>, seg: Seq<char>) -> bool {
    ||| p == seg
    ||| (p.len() > seg.len() && p.subrange(p.len() - seg.len(), p.len() as int) == seg
        && p[p.len() - seg.len() - 1] == '/')
}

/// A joined path always carries the joined segment as its final segment.
pub proof fn lemma_join_has_final_segment(base: Seq<char>, seg: Seq<char>)
    ensures
        has_final_segment(join_spec(base, seg), seg),
{
    if base.len() == 0 {
    } else if base.last() == '/' {
        let p = base + seg;
        assert(p.subrange(p.len() - seg.len(), p.len() as int) =~= seg);
        assert(p[p.len() - seg.len() - 1] == '/');
    } else {
        let p = base + seq!['/'] + seg;
        assert(p.subrange(p.len() - seg.len(), p.len() as int) =~= seg);
        assert(p[p.len() - seg.len() - 1] == '/');
    }
}

/// Whether the given path is absolute.
pub fn path_is_absolute(p: &str) -> (r: bool)
    ensures
        r == is_absolute_spec(p@),
{
    if p.unicode_len() == 0 {
        false
    } else {
        p.get_char(0) == '/'
    }
}

/// The original override check: an absolute path passes through, any
/// other value is discarded.
pub fn is_absolute_path(path: String) -> (r: Option<String>)
    ensures
        match r {
            Some(p) => is_absolute_spec(path@) && p@ == path@,
            None => !is_absolute_spec(path@),
        },
{
    if path_is_absolute(path.as_str()) {
        Some(path)
    } else {
        None
    }
}

/// Appends `seg` to `base` as one further path segment.
pub fn join_path(base: &str, seg: &str) -> (r: String)
    ensures
        r@ == join_spec(base@, seg@),
{
    let n = base.unicode_len();
    if n == 0 {
        seg.to_owned()
    } else {
        let mut r = base.to_owned();
        if base.get_char(n - 1) != '/' {
            proof {
                reveal_strlit("/");
                assert("/"@ =~= seq!['/']);
            }
            r.append("/");
        }
        r.append(seg);
        r
    }
}

/// Removes the final segment of `p`, as `pop_spec` describes.
pub fn pop_path(p: &str) -> (r: String)
    ensures
        r@ == pop_spec(p@),
{
    let n = p.unicode_len();
    let mut i: usize = n;
    while i > 0 && p.get_char(i - 1) != '/'
        invariant
            i <= n,
            n == p@.len(),
            forall|j: int| i <= j < n ==> p@[j] != '/',
        decreases i,
    {
        i = i - 1;
    }
    proof {
        lemma_last_occurrence(p@, '/');
    }
    if i == 0 {
        String::new()
    } else if i == 1 {
        proof {
            reveal_strlit("/");
            assert("/"@ =~= seq!['/']);
        }
        "/".to_owned()
    } else {
        p.substring_char(0, i - 1).to_owned()
    }
}

} // verus!
