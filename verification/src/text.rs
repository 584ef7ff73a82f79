use vstd::prelude::*;

verus! {

/// The position of the last occurrence of `c` in `s`, if any.
pub open spec fn find_last(s: Seq<char>, c: char) -> Option<int>
    decreases s.len(),
{
    if s.len() == 0 {
        None
    } else if s.last() == c {
        Some(s.len() - 1)
    } else {
        find_last(s.drop_last(), c)
    }
}

/// What `find_last` finds is an occurrence, and the last one.
pub proof fn lemma_find_last_props(s: Seq<char>, c: char)
    ensures
        match find_last(s, c) {
            Some(i) => 0 <= i < s.len() && s[i] == c && forall|k: int| i < k < s.len() ==> s[k] != c,
            None => forall|k: int| 0 <= k < s.len() ==> s[k] != c,
        },
    decreases s.len(),
{
    if s.len() > 0 && s.last() != c {
        lemma_find_last_props(s.drop_last(), c);
        assert forall|k: int| 0 <= k < s.len() - 1 implies s.drop_last()[k] == s[k] by {}
    }
}

proof fn lemma_find_last_at(s: Seq<char>, c: char, j: int)
    requires
        0 <= j < s.len(),
        s[j] == c,
        forall|k: int| j < k < s.len() ==> s[k] != c,
    ensures
        find_last(s, c) == Some(j),
    decreases s.len(),
{
    if j < s.len() - 1 {
        assert(s.last() != c);
        assert(s.drop_last()[j] == s[j]);
        lemma_find_last_at(s.drop_last(), c, j);
    }
}

proof fn lemma_find_last_none(s: Seq<char>, c: char)
    requires
        forall|k: int| 0 <= k < s.len() ==> s[k] != c,
    ensures
        find_last(s, c) is None,
    decreases s.len(),
{
    if s.len() > 0 {
        lemma_find_last_none(s.drop_last(), c);
    }
}

/// Find the position of the last occurrence of `c` in `s`.
pub(crate) fn find_last_char(s: &str, c: char) -> (r: Option<usize>)
    ensures
        match r {
            Some(i) => i < s@.len() && find_last(s@, c) == Some(i as int),
            None => find_last(s@, c) is None,
        },
{
    let n = s.unicode_len();
    let mut i: usize = n;
    while i > 0
        invariant
            i <= n,
            n == s@.len(),
            forall|k: int| i <= k < n ==> s@[k] != c,
        decreases i,
    {
        let ch = s.get_char(i - 1);
        if ch == c {
            proof {
                lemma_find_last_at(s@, c, i - 1);
            }
            return Some(i - 1);
        }
        i = i - 1;
    }
    proof {
        lemma_find_last_none(s@, c);
    }
    None
}

/// Whether two character sequences are the same.
pub(crate) fn str_eq(a: &str, b: &str) -> (r: bool)
    ensures
        r == (a@ == b@),
{
    let n = a.unicode_len();
    if n != b.unicode_len() {
        return false;
    }
    let mut i: usize = 0;
    while i < n
        invariant
            i <= n,
            n == a@.len(),
            n == b@.len(),
            forall|k: int| 0 <= k < i ==> a@[k] == b@[k],
        decreases n - i,
    {
        if a.get_char(i) != b.get_char(i) {
            return false;
        }
        i = i + 1;
    }
    proof {
        assert(a@ =~= b@);
    }
    true
}

/// Whether `pat` occurs in `s` starting at position `i`.
pub open spec fn is_match_at(s: Seq<char>, pat: Seq<char>, i: int) -> bool {
    0 <= i && i + pat.len() <= s.len() && s.subrange(i, i + pat.len()) == pat
}

/// `s` from position `i` on, with every occurrence of a non-empty `pat`
/// replaced by `sub`, scanning left to right without overlap.
pub open spec fn replaced_from(s: Seq<char>, pat: Seq<char>, sub: Seq<char>, i: int) -> Seq<char>
    decreases s.len() - i,
{
    if i < 0 || i >= s.len() {
        Seq::empty()
    } else if is_match_at(s, pat, i) && pat.len() > 0 {
        sub + replaced_from(s, pat, sub, i + pat.len())
    } else {
        seq![s[i]] + replaced_from(s, pat, sub, i + 1)
    }
}

/// Whether `pat` occurs in `s` at position `i`.
fn match_at(s: &str, pat: &str, i: usize) -> (b: bool)
    requires
        i + pat@.len() <= s@.len(),
    ensures
        b == is_match_at(s@, pat@, i as int),
{
    let total = s.unicode_len();
    let m = pat.unicode_len();
    let mut j: usize = 0;
    while j < m
        invariant
            j <= m,
            m == pat@.len(),
            total == s@.len(),
            i + m <= total,
            forall|k: int| 0 <= k < j ==> s@[i + k] == pat@[k],
        decreases m - j,
    {
        if s.get_char(i + j) != pat.get_char(j) {
            return false;
        }
        j = j + 1;
    }
    proof {
        assert(s@.subrange(i as int, i + pat@.len()) =~= pat@);
    }
    true
}

/// A copy of `s` with every occurrence of `pat` replaced by `sub`,
/// scanning left to right without overlap.
pub(crate) fn replace_all(s: &str, pat: &str, sub: &str) -> (r: String)
    ensures
        r@ == replaced_from(s@, pat@, sub@, 0),
{
    let n = s.unicode_len();
    let m = pat.unicode_len();
    let mut r = String::new();
    let mut i: usize = 0;
    while i < n
        invariant
            i <= n,
            n == s@.len(),
            m == pat@.len(),
            r@ + replaced_from(s@, pat@, sub@, i as int) == replaced_from(s@, pat@, sub@, 0),
        decreases n - i,
    {
        let ghost r_before = r@;
        if m > 0 && m <= n - i && match_at(s, pat, i) {
            r.append(sub);
            i = i + m;
            proof {
                assert(r@ + replaced_from(s@, pat@, sub@, i as int) =~= r_before + (sub@
                    + replaced_from(s@, pat@, sub@, i as int)));
            }
        } else {
            let piece = s.substring_char(i, i + 1);
            r.append(piece);
            i = i + 1;
            proof {
                assert(piece@ =~= seq![s@[i - 1]]);
                assert(r@ + replaced_from(s@, pat@, sub@, i as int) =~= r_before + (seq![
                    s@[i - 1],
                ] + replaced_from(s@, pat@, sub@, i as int)));
            }
        }
    }
    proof {
        assert(replaced_from(s@, pat@, sub@, n as int) =~= Seq::empty());
        assert(r@ =~= r@ + replaced_from(s@, pat@, sub@, n as int));
    }
    r
}

/// Where the file name of a path starts: just after the last `/`.
pub open spec fn file_name_start(p: Seq<char>) -> int {
    match find_last(p, '/') {
        Some(i) => i + 1,
        None => 0,
    }
}

/// The position of the dot that separates a path's extension, if the file
/// name has one; a dot that starts the file name does not count.
pub open spec fn ext_dot(p: Seq<char>) -> Option<int> {
    match find_last(p, '.') {
        Some(d) => if d > file_name_start(p) {
            Some(d)
        } else {
            None
        },
        None => None,
    }
}

/// The stem of a path's file name: the file name without its extension.
pub open spec fn file_stem_spec(p: Seq<char>) -> Seq<char> {
    match ext_dot(p) {
        Some(d) => p.subrange(file_name_start(p), d),
        None => p.subrange(file_name_start(p), p.len() as int),
    }
}

/// A path up to but not including its extension's dot; the whole path when
/// there is no extension.
pub open spec fn without_ext(p: Seq<char>) -> Seq<char> {
    match ext_dot(p) {
        Some(d) => p.subrange(0, d),
        None => p,
    }
}

/// A path's extension: what follows the extension's dot, empty without one.
pub open spec fn ext_spec(p: Seq<char>) -> Seq<char> {
    match ext_dot(p) {
        Some(d) => p.subrange(d + 1, p.len() as int),
        None => Seq::empty(),
    }
}

/// The stem of the file name of `s`.
pub(crate) fn file_stem(s: &str) -> (r: String)
    ensures
        r@ == file_stem_spec(s@),
{
    proof {
        lemma_find_last_props(s@, '/');
        lemma_find_last_props(s@, '.');
    }
    let n = s.unicode_len();
    let fs: usize = match find_last_char(s, '/') {
        Some(i) => i + 1,
        None => 0,
    };
    let end: usize = match find_last_char(s, '.') {
        Some(d) => if d > fs {
            d
        } else {
            n
        },
        None => n,
    };
    s.substring_char(fs, end).to_owned()
}

/// Split a path into the part before its extension's dot and the extension
/// itself; without an extension, the whole path and an empty string.
pub(crate) fn split_ext(s: &str) -> (r: (String, String))
    ensures
        r.0@ == without_ext(s@),
        r.1@ == ext_spec(s@),
{
    proof {
        lemma_find_last_props(s@, '/');
        lemma_find_last_props(s@, '.');
    }
    let n = s.unicode_len();
    let fs: usize = match find_last_char(s, '/') {
        Some(i) => i + 1,
        None => 0,
    };
    match find_last_char(s, '.') {
        Some(d) => {
            if d > fs {
                let head = s.substring_char(0, d).to_owned();
                let ext = s.substring_char(d + 1, n).to_owned();
                (head, ext)
            } else {
                (s.to_owned(), String::new())
            }
        },
        None => (s.to_owned(), String::new()),
    }
}

} // verus!
