//! Text helpers shared by the parsers, the fetch classifier and the logs.

use vstd::prelude::*;

verus! {

/// `p` is a prefix of `s`.
pub open spec fn is_prefix(p: Seq<char>, s: Seq<char>) -> bool {
    p.len() <= s.len() && s.subrange(0, p.len() as int) == p
}

/// `p` is a suffix of `s`.
pub open spec fn is_suffix(p: Seq<char>, s: Seq<char>) -> bool {
    p.len() <= s.len() && s.subrange(s.len() - p.len(), s.len() as int) == p
}

/// `p` occurs somewhere inside `s`.
pub open spec fn has_infix(s: Seq<char>, p: Seq<char>) -> bool {
    exists|i: int| 0 <= i && i + p.len() <= s.len() && #[trigger] s.subrange(i, i + p.len()) == p
}

/// The lines of a text, as `str::lines` splits them.
pub uninterp spec fn lines_of(s: Seq<char>) -> Seq<Seq<char>>;

/// A text without its leading and trailing white space, as `str::trim` gives it.
pub uninterp spec fn trimmed(s: Seq<char>) -> Seq<char>;

/// A text in lower case, as `str::to_lowercase` gives it.
pub uninterp spec fn lowered(s: Seq<char>) -> Seq<char>;

/// The white-space separated words of a text, as `str::split_whitespace` gives them.
pub uninterp spec fn words_of(s: Seq<char>) -> Seq<Seq<char>>;

/// The decimal notation of a number, as `i128`'s `Display` writes it.
pub uninterp spec fn decimal(n: int) -> Seq<char>;

/// The views of a vector of strings.
pub open spec fn views(v: Seq<String>) -> Seq<Seq<char>> {
    v.map_values(|s: String| s@)
}

/// Lines joined with a newline between each two of them.
pub open spec fn joined(parts: Seq<Seq<char>>) -> Seq<char>
    decreases parts.len(),
{
    if parts.len() == 0 {
        Seq::empty()
    } else if parts.len() == 1 {
        parts[0]
    } else {
        joined(parts.drop_last()) + seq!['\n'] + parts.last()
    }
}

/// Relies on `str::starts_with` with a string pattern: true exactly for a prefix.
#[verifier::external_body]
pub(crate) fn starts_with(s: &str, p: &str) -> (r: bool)
    ensures
        r == is_prefix(p@, s@),
{
    s.starts_with(p)
}

/// Relies on `str::ends_with` with a string pattern: true exactly for a suffix.
#[verifier::external_body]
pub(crate) fn ends_with(s: &str, p: &str) -> (r: bool)
    ensures
        r == is_suffix(p@, s@),
{
    s.ends_with(p)
}

/// Relies on `str::contains` with a string pattern: true exactly when `p` occurs in `s`.
#[verifier::external_body]
pub(crate) fn contains(s: &str, p: &str) -> (r: bool)
    ensures
        r == has_infix(s@, p@),
{
    s.contains(p)
}

/// Relies on `str::strip_prefix` with a string pattern: the rest after the prefix.
#[verifier::external_body]
pub(crate) fn strip_prefix<'a>(s: &'a str, p: &str) -> (r: Option<&'a str>)
    ensures
        is_prefix(p@, s@) ==> r is Some && r->0@ == s@.subrange(p@.len() as int, s@.len() as int),
        !is_prefix(p@, s@) ==> r is None,
{
    s.strip_prefix(p)
}

/// Relies on `str::lines`: the lines of `s`, each without its line ending.
#[verifier::external_body]
pub(crate) fn split_lines(s: &str) -> (r: Vec<String>)
    ensures
        views(r@) == lines_of(s@),
{
    s.lines().map(|l| l.to_string()).collect()
}

/// Relies on `str::split_whitespace`: the words of `s`.
#[verifier::external_body]
pub(crate) fn split_words(s: &str) -> (r: Vec<String>)
    ensures
        views(r@) == words_of(s@),
{
    s.split_whitespace().map(|w| w.to_string()).collect()
}

/// Relies on `str::trim`: `s` without leading and trailing white space.
#[verifier::external_body]
pub(crate) fn trim(s: &str) -> (r: &str)
    ensures
        r@ == trimmed(s@),
        s@.len() == 0 ==> r@.len() == 0,
{
    s.trim()
}

/// Relies on `str::to_lowercase`: the lower-case form of `s`.
#[verifier::external_body]
pub(crate) fn to_lower(s: &str) -> (r: String)
    ensures
        r@ == lowered(s@),
        s@.len() == 0 ==> r@.len() == 0,
{
    s.to_lowercase()
}

/// Relies on `String::push`: appends one character.
#[verifier::external_body]
pub(crate) fn push_char(s: &mut String, c: char)
    ensures
        final(s)@ == old(s)@.push(c),
{
    s.push(c)
}

/// Relies on `i128`'s `to_string`: the decimal notation of `n`.
#[verifier::external_body]
pub(crate) fn wide_to_text(n: i128) -> (r: String)
    ensures
        r@ == decimal(n as int),
{
    n.to_string()
}

/// The decimal notation of `n`.
pub fn int_to_text(n: i32) -> (r: String)
    ensures
        r@ == decimal(n as int),
{
    wide_to_text(n as i128)
}

/// Relies on `str`'s `==`: true exactly for equal texts.
#[verifier::external_body]
pub(crate) fn same_text(a: &str, b: &str) -> (r: bool)
    ensures
        r == (a@ == b@),
{
    a == b
}

/// Whether `v` holds the text `s`.
pub fn holds_text(v: &Vec<String>, s: &str) -> (r: bool)
    ensures
        r == views(v@).contains(s@),
{
    let mut i: usize = 0;
    while i < v.len()
        invariant
            i <= v.len(),
            forall|j: int| 0 <= j < i ==> v@[j]@ != s@,
        decreases v.len() - i,
    {
        if same_text(v[i].as_str(), s) {
            assert(views(v@)[i as int] == s@);
            return true;
        }
        i = i + 1;
    }
    assert forall|j: int| 0 <= j < views(v@).len() implies views(v@)[j] != s@ by {
        assert(views(v@)[j] == v@[j]@);
    }
    false
}

/// Removes `b` from `v` if it is there.
pub fn remove_text(v: &mut Vec<String>, b: &str)
    requires
        views(old(v)@).no_duplicates(),
    ensures
        views(final(v)@).no_duplicates(),
        views(final(v)@).to_set() == views(old(v)@).to_set().remove(b@),
{
    let mut i: usize = 0;
    while i < v.len()
        invariant
            i <= v.len(),
            v@ == old(v)@,
            views(v@).no_duplicates(),
            forall|j: int| 0 <= j < i ==> v@[j]@ != b@,
        decreases v.len() - i,
    {
        if same_text(v[i].as_str(), b) {
            let ghost pre = views(v@);
            assert(pre.no_duplicates());
            v.remove(i);
            proof {
                let post = views(v@);
                assert(post =~= pre.remove(i as int));
                assert(pre[i as int] == b@);
                assert forall|k: int| 0 <= k < post.len() implies #[trigger] post[k] == (if k
                    < i {
                    pre[k]
                } else {
                    pre[k + 1]
                }) by {
                    assert(post[k] == pre.remove(i as int)[k]);
                }
                assert forall|p: int, q: int|
                    0 <= p < post.len() && 0 <= q < post.len() && p != q implies post[p]
                    != post[q] by {
                    let pp = if p < i { p } else { p + 1 };
                    let qq = if q < i { q } else { q + 1 };
                    assert(post[p] == pre[pp]);
                    assert(post[q] == pre[qq]);
                    assert(pp != qq);
                    assert(0 <= pp < pre.len() && 0 <= qq < pre.len());
                    assert(pre[pp] != pre[qq]);
                }
                assert forall|x: Seq<char>| #[trigger]
                    post.to_set().contains(x) == pre.to_set().remove(b@).contains(x) by {
                    if post.contains(x) {
                        let k = choose|k: int| 0 <= k < post.len() && post[k] == x;
                        let kk = if k < i { k } else { k + 1 };
                        assert(pre[kk] == x);
                        assert(kk != i);
                        assert(pre.contains(x));
                    }
                    if pre.contains(x) && x != b@ {
                        let k = choose|k: int| 0 <= k < pre.len() && pre[k] == x;
                        assert(k != i);
                        if k < i {
                            assert(post[k] == x);
                        } else {
                            assert(post[k - 1] == x);
                        }
                    }
                }
                assert(post.to_set() =~= pre.to_set().remove(b@));
            }
            return;
        }
        i = i + 1;
    }
    assert(!views(v@).contains(b@));
    assert(views(v@).to_set() =~= views(v@).to_set().remove(b@));
}

/// Adds `b` to `v` unless it is there.
pub fn insert_text(v: &mut Vec<String>, b: &str)
    requires
        views(old(v)@).no_duplicates(),
    ensures
        views(final(v)@).no_duplicates(),
        views(final(v)@).to_set() == views(old(v)@).to_set().insert(b@),
{
    if !holds_text(v, b) {
        let ghost pre = views(v@);
        v.push(String::from_str(b));
        let ghost post = views(v@);
        assert(post =~= pre.push(b@));
        assert forall|x: Seq<char>| #[trigger]
            post.to_set().contains(x) == pre.to_set().insert(b@).contains(x) by {
            if pre.contains(x) {
                let k = choose|k: int| 0 <= k < pre.len() && pre[k] == x;
                assert(post[k] == x);
            }
            if post.contains(x) && x != b@ {
                let k = choose|k: int| 0 <= k < post.len() && post[k] == x;
                assert(k < pre.len());
                assert(pre[k] == x);
            }
            if x == b@ {
                assert(post[pre.len() as int] == x);
            }
        }
        assert(post.to_set() =~= pre.to_set().insert(b@));
    } else {
        assert(views(v@).to_set() =~= views(v@).to_set().insert(b@));
    }
}

/// Joins `parts` with a newline between each two of them.
pub fn join_lines(parts: &Vec<String>) -> (r: String)
    ensures
        r@ == joined(views(parts@)),
{
    let mut r = String::new();
    let mut i: usize = 0;
    while i < parts.len()
        invariant
            i <= parts.len(),
            r@ == joined(views(parts@).subrange(0, i as int)),
        decreases parts.len() - i,
    {
        let ghost before = views(parts@).subrange(0, i as int);
        if i > 0 {
            r.append("\n");
        }
        r.append(parts[i].as_str());
        proof {
            reveal_strlit("\n");
            let next = views(parts@).subrange(0, i + 1);
            assert(next.drop_last() == before);
            assert(next.last() == parts@[i as int]@);
        }
        i = i + 1;
    }
    assert(views(parts@).subrange(0, parts.len() as int) == views(parts@));
    r
}

} // verus!
