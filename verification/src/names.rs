//! Project-name normalization: whitespace is trimmed and collapsed into
//! single hyphens, the name is lowercased, and a reverse-DNS qualifier is
//! stripped down to its final segment.

use vstd::prelude::*;
use crate::paths::{last_occurrence, lemma_last_occurrence};

verus! {

/// The characters of the Unicode `White_Space` property, as the standard
/// library documents them for `char::is_whitespace`.
pub open spec fn is_white_spec(c: char) -> bool {
    ||| c == ' '
    ||| c == '\u{9}'
    ||| c == '\u{A}'
    ||| c == '\u{B}'
    ||| c == '\u{C}'
    ||| c == '\u{D}'
    ||| c == '\u{85}'
    ||| c == '\u{A0}'
    ||| c == '\u{1680}'
    ||| c == '\u{2000}'
    ||| c == '\u{2001}'
    ||| c == '\u{2002}'
    ||| c == '\u{2003}'
    ||| c == '\u{2004}'
    ||| c == '\u{2005}'
    ||| c == '\u{2006}'
    ||| c == '\u{2007}'
    ||| c == '\u{2008}'
    ||| c == '\u{2009}'
    ||| c == '\u{200A}'
    ||| c == '\u{2028}'
    ||| c == '\u{2029}'
    ||| c == '\u{202F}'
    ||| c == '\u{205F}'
    ||| c == '\u{3000}'
}

/// Whether `c` is a whitespace character.
fn is_whitespace_char(c: char) -> (r: bool)
    ensures
        r == is_white_spec(c),
{
    c == ' ' || c == '\u{9}' || c == '\u{A}' || c == '\u{B}' || c == '\u{C}' || c == '\u{D}'
        || c == '\u{85}' || c == '\u{A0}' || c == '\u{1680}' || c == '\u{2000}' || c == '\u{2001}'
        || c == '\u{2002}' || c == '\u{2003}' || c == '\u{2004}' || c == '\u{2005}'
        || c == '\u{2006}' || c == '\u{2007}' || c == '\u{2008}' || c == '\u{2009}'
        || c == '\u{200A}' || c == '\u{2028}' || c == '\u{2029}' || c == '\u{202F}'
        || c == '\u{205F}' || c == '\u{3000}'
}

/// What `str::to_lowercase` returns for a given character sequence.
pub uninterp spec fn lower_of(s: Seq<char>) -> Seq<char>;

/// Relies on `str::to_lowercase`: the result is the Unicode lowercase
/// equivalent of the input, a function of its characters alone; an empty
/// string stays empty.
#[verifier::external_body]
fn to_lowercase_str(s: &str) -> (r: String)
    ensures
        r@ == lower_of(s@),
        s@.len() == 0 ==> r@.len() == 0,
{
    s.to_lowercase()
}

/// Relies on `String::push`: appends the given character at the end of
/// the string.
#[verifier::external_body]
fn push_char(s: &mut String, c: char)
    ensures
        final(s)@ == old(s)@.push(c),
{
    s.push(c);
}

/// The characters of `s`, one by one.
fn to_char_vec(s: &str) -> (v: Vec<char>)
    ensures
        v@ == s@,
{
    let n = s.unicode_len();
    let mut v: Vec<char> = Vec::new();
    let mut i: usize = 0;
    while i < n
        invariant
            i <= n,
            n == s@.len(),
            v@ == s@.take(i as int),
        decreases n - i,
    {
        let c = s.get_char(i);
        v.push(c);
        i = i + 1;
        proof {
            assert(v@ =~= s@.take(i as int));
        }
    }
    proof {
        assert(s@.take(n as int) =~= s@);
    }
    v
}

/// Hyphenation, one character at a time from the front: whitespace is
/// dropped, and a run of it between two words becomes a single hyphen.
/// `started` records that a word has been emitted, `pending` that a
/// hyphen is owed before the next word.
pub open spec fn hyph_rec(s: Seq<char>, started: bool, pending: bool) -> Seq<char>
    decreases s.len(),
{
    if s.len() == 0 {
        Seq::empty()
    } else if is_white_spec(s[0]) {
        hyph_rec(s.skip(1), started, started)
    } else if pending {
        seq!['-', s[0]] + hyph_rec(s.skip(1), true, false)
    } else {
        seq![s[0]] + hyph_rec(s.skip(1), true, false)
    }
}

/// Leading and trailing whitespace removed, every internal run of
/// whitespace collapsed into a single hyphen.
pub open spec fn hyphenate_spec(s: Seq<char>) -> Seq<char> {
    hyph_rec(s, false, false)
}

/// What normalization of a free-form name yields: the lowercase
/// equivalent of the input, hyphenated.
pub open spec fn normalized_spec(s: Seq<char>) -> Seq<char> {
    hyphenate_spec(lower_of(s))
}

/// Collapses whitespace as `hyphenate_spec` describes.
fn hyphenate(s: &str) -> (r: String)
    ensures
        r@ == hyphenate_spec(s@),
{
    let cs = to_char_vec(s);
    let mut out = String::new();
    let mut started = false;
    let mut pending = false;
    let mut i: usize = 0;
    proof {
        assert(s@.skip(0) =~= s@);
        assert(out@ + hyph_rec(s@, false, false) =~= hyph_rec(s@, false, false));
    }
    while i < cs.len()
        invariant
            i <= cs.len(),
            cs@ == s@,
            hyph_rec(s@, false, false) == out@ + hyph_rec(s@.skip(i as int), started, pending),
        decreases cs.len() - i,
    {
        let ghost t = s@.skip(i as int);
        let ghost out0 = out@;
        let ghost rest = hyph_rec(t.skip(1), true, false);
        proof {
            assert(t[0] == s@[i as int]);
            assert(t.skip(1) =~= s@.skip(i as int + 1));
        }
        let c = cs[i];
        if is_whitespace_char(c) {
            pending = started;
        } else {
            if pending {
                proof {
                    assert(out0 + (seq!['-', c] + rest) =~= out0.push('-').push(c) + rest);
                }
                push_char(&mut out, '-');
                push_char(&mut out, c);
            } else {
                proof {
                    assert(out0 + (seq![c] + rest) =~= out0.push(c) + rest);
                }
                push_char(&mut out, c);
            }
            started = true;
            pending = false;
        }
        i = i + 1;
    }
    proof {
        assert(s@.skip(cs@.len() as int).len() == 0);
        assert(out@ + hyph_rec(s@.skip(cs@.len() as int), started, pending) =~= out@);
    }
    out
}

/// Normalizes a free-form display name: whitespace is trimmed and every
/// internal run of it becomes one hyphen, and the whole is lowercased.
pub fn trim_and_replace_spaces_with_hyphens_then_lowercase(name: &str) -> (r: String)
    ensures
        r@ == normalized_spec(name@),
{
    let lowered = to_lowercase_str(name);
    hyphenate(lowered.as_str())
}

/// Every character that hyphenation emits is a hyphen or a
/// non-whitespace character carried over from its input.
proof fn lemma_hyph_rec_no_whitespace(s: Seq<char>, started: bool, pending: bool)
    ensures
        forall|k: int|
            0 <= k < hyph_rec(s, started, pending).len() ==> !is_white_spec(
                #[trigger] hyph_rec(s, started, pending)[k],
            ),
    decreases s.len(),
{
    let r = hyph_rec(s, started, pending);
    if s.len() == 0 {
    } else if is_white_spec(s[0]) {
        lemma_hyph_rec_no_whitespace(s.skip(1), started, started);
        let rest = hyph_rec(s.skip(1), started, started);
        assert forall|k: int| 0 <= k < r.len() implies !is_white_spec(#[trigger] r[k]) by {
            assert(r[k] == rest[k]);
            assert(!is_white_spec(rest[k]));
        }
    } else {
        lemma_hyph_rec_no_whitespace(s.skip(1), true, false);
        let rest = hyph_rec(s.skip(1), true, false);
        assert forall|k: int| 0 <= k < r.len() implies !is_white_spec(#[trigger] r[k]) by {
            if pending {
                assert(r == seq!['-', s[0]] + rest);
                if k == 0 {
                    assert(r[k] == '-');
                } else if k == 1 {
                    assert(r[k] == s[0]);
                } else {
                    assert(r[k] == rest[k - 2]);
                    assert(!is_white_spec(rest[k - 2]));
                }
            } else {
                assert(r == seq![s[0]] + rest);
                if k == 0 {
                    assert(r[k] == s[0]);
                } else {
                    assert(r[k] == rest[k - 1]);
                    assert(!is_white_spec(rest[k - 1]));
                }
            }
        }
    }
}

/// Law: normalization yields a name free of whitespace, whatever the
/// input was.
pub proof fn lemma_normalized_has_no_whitespace(s: Seq<char>)
    ensures
        forall|k: int|
            0 <= k < normalized_spec(s).len() ==> !is_white_spec(#[trigger] normalized_spec(s)[k]),
{
    lemma_hyph_rec_no_whitespace(lower_of(s), false, false);
}

/// Everything up to and including the last `.` removed.
pub open spec fn strip_spec(s: Seq<char>) -> Seq<char> {
    s.skip(last_occurrence(s, '.') + 1)
}

/// Strips a reverse-DNS qualifier, keeping only the part after the last
/// `.`; a name without one is kept whole.
pub fn strip_qualification(name: &str) -> (r: &str)
    ensures
        r@ == strip_spec(name@),
{
    let n = name.unicode_len();
    let mut i: usize = n;
    while i > 0 && name.get_char(i - 1) != '.'
        invariant
            i <= n,
            n == name@.len(),
            forall|j: int| i <= j < n ==> name@[j] != '.',
        decreases i,
    {
        i = i - 1;
    }
    proof {
        lemma_last_occurrence(name@, '.');
        if i == 0 {
            assert(last_occurrence(name@, '.') == -1);
            assert(name@.skip(0) =~= name@);
        } else {
            assert(name@[i - 1] == '.');
            assert(last_occurrence(name@, '.') == i - 1);
        }
    }
    if i == 0 {
        name
    } else {
        name.substring_char(i, n)
    }
}

/// `s` with its leading whitespace removed.
pub open spec fn trim_start_rec(s: Seq<char>) -> Seq<char>
    decreases s.len(),
{
    if s.len() > 0 && is_white_spec(s[0]) {
        trim_start_rec(s.skip(1))
    } else {
        s
    }
}

/// `s` with its trailing whitespace removed.
pub open spec fn trim_end_rec(s: Seq<char>) -> Seq<char>
    decreases s.len(),
{
    if s.len() > 0 && is_white_spec(s.last()) {
        trim_end_rec(s.drop_last())
    } else {
        s
    }
}

/// `s` with leading and trailing whitespace removed.
pub open spec fn trim_spec(s: Seq<char>) -> Seq<char> {
    trim_end_rec(trim_start_rec(s))
}

/// Removes leading and trailing whitespace.
fn trim_whitespace(s: &str) -> (r: String)
    ensures
        r@ == trim_spec(s@),
{
    let cs = to_char_vec(s);
    let n = cs.len();
    let mut a: usize = 0;
    proof {
        assert(s@.skip(0) =~= s@);
    }
    while a < n && is_whitespace_char(cs[a])
        invariant
            a <= n,
            n == s@.len(),
            cs@ == s@,
            trim_start_rec(s@) == trim_start_rec(s@.skip(a as int)),
        decreases n - a,
    {
        proof {
            assert(s@.skip(a as int)[0] == s@[a as int]);
            assert(s@.skip(a as int).skip(1) =~= s@.skip(a as int + 1));
        }
        a = a + 1;
    }
    proof {
        if a < n {
            assert(s@.skip(a as int)[0] == s@[a as int]);
        }
        assert(trim_start_rec(s@) == s@.skip(a as int));
        assert(s@.skip(a as int) =~= s@.subrange(a as int, n as int));
    }
    let mut b: usize = n;
    while b > a && is_whitespace_char(cs[b - 1])
        invariant
            a <= b <= n,
            n == s@.len(),
            cs@ == s@,
            trim_start_rec(s@) == s@.subrange(a as int, n as int),
            trim_end_rec(s@.subrange(a as int, n as int)) == trim_end_rec(
                s@.subrange(a as int, b as int),
            ),
        decreases b,
    {
        proof {
            let u = s@.subrange(a as int, b as int);
            assert(u.last() == s@[b - 1]);
            assert(u.drop_last() =~= s@.subrange(a as int, b as int - 1));
        }
        b = b - 1;
    }
    proof {
        let u = s@.subrange(a as int, b as int);
        if b > a {
            assert(u.last() == s@[b - 1]);
        }
        assert(trim_end_rec(u) == u);
    }
    s.substring_char(a, b).to_owned()
}

/// What normalization of a reverse-DNS-qualified name yields: the part
/// after the last `.`, lowercased, with surrounding whitespace trimmed.
pub open spec fn qualified_normalized_spec(q: Seq<char>) -> Seq<char> {
    trim_spec(lower_of(strip_spec(q)))
}

/// Normalizes a reverse-DNS-qualified name.
pub(crate) fn normalize_qualified_name(q: &str) -> (r: String)
    ensures
        r@ == qualified_normalized_spec(q@),
{
    let stripped = strip_qualification(q);
    let lowered = to_lowercase_str(stripped);
    trim_whitespace(lowered.as_str())
}

} // verus!
