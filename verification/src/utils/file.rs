//! Paths and the quoting of configuration values.
use vstd::prelude::*;
use vstd::string::*;
use path_absolutize::Absolutize;

use crate::text::push_char;

verus! {

/// The characters of `s` before the first `c` (all of `s` when there is none).
pub open spec fn before_char(s: Seq<char>, c: char) -> Seq<char>
    decreases s.len(),
{
    if s.len() == 0 {
        Seq::empty()
    } else if s[0] == c {
        Seq::empty()
    } else {
        seq![s[0]] + before_char(s.drop_first(), c)
    }
}

/// The characters of `s` after the first `c` (empty when there is none).
pub open spec fn after_char(s: Seq<char>, c: char) -> Seq<char>
    decreases s.len(),
{
    if s.len() == 0 {
        Seq::empty()
    } else if s[0] == c {
        s.drop_first()
    } else {
        after_char(s.drop_first(), c)
    }
}

/// The second piece of `s` split at `c`: what lies between its first and second `c`.
pub open spec fn second_piece(s: Seq<char>, c: char) -> Seq<char> {
    before_char(after_char(s, c), c)
}

proof fn lemma_split_step(s: Seq<char>, c: char, i: int)
    requires
        0 <= i < s.len(),
        forall|j: int| 0 <= j < i ==> s[j] != c,
    ensures
        s[i] != c ==> before_char(s, c) == s.take(i + 1) + before_char(s.skip(i + 1), c),
        s[i] != c ==> after_char(s, c) == after_char(s.skip(i + 1), c),
        s[i] == c ==> before_char(s, c) == s.take(i),
        s[i] == c ==> after_char(s, c) == s.skip(i + 1),
    decreases i,
{
    if i > 0 {
        lemma_split_step(s.drop_first(), c, i - 1);
        assert(s.drop_first().skip(i) =~= s.skip(i + 1));
        assert(s.drop_first().skip(i - 1 + 1) =~= s.skip(i + 1));
        assert(seq![s[0]] + s.drop_first().take(i) =~= s.take(i + 1));
        assert(seq![s[0]] + s.drop_first().take(i - 1) =~= s.take(i));
        assert(s.drop_first().skip(i) =~= s.skip(i + 1));
    } else {
        assert(s.skip(1) =~= s.drop_first());
        assert(seq![s[0]] + Seq::<char>::empty() =~= s.take(1));
        assert(s.take(0) =~= Seq::<char>::empty());
    }
}

/// Splits `s` at the first `c`: the part before it, and the part after it (`None` when
/// `s` holds no `c`).
pub fn split_once_char(s: &str, c: char) -> (r: (String, Option<String>))
    ensures
        r.0@ == before_char(s@, c),
        r.1 is Some <==> s@.contains(c),
        r.1 matches Some(rest) ==> rest@ == after_char(s@, c),
{
    let n = s.unicode_len();
    let mut head = String::new();
    let mut i: usize = 0;
    while i < n
        invariant
            n == s@.len(),
            i <= n,
            head@ == s@.take(i as int),
            forall|j: int| 0 <= j < i ==> s@[j] != c,
        decreases n - i,
    {
        let ch = s.get_char(i);
        if ch == c {
            proof {
                lemma_split_step(s@, c, i as int);
            }
            let mut rest = String::new();
            let mut k: usize = i + 1;
            while k < n
                invariant
                    n == s@.len(),
                    i < k <= n,
                    rest@ == s@.subrange(i as int + 1, k as int),
                decreases n - k,
            {
                push_char(&mut rest, s.get_char(k));
                assert(rest@ =~= s@.subrange(i as int + 1, k as int + 1));
                k = k + 1;
            }
            assert(rest@ =~= s@.skip(i as int + 1));
            return (head, Some(rest));
        }
        push_char(&mut head, ch);
        assert(head@ =~= s@.take(i as int + 1));
        i = i + 1;
    }
    proof {
        lemma_no_char(s@, c);
        assert(s@.take(n as int) =~= s@);
    }
    (head, None)
}

proof fn lemma_no_char(s: Seq<char>, c: char)
    requires
        forall|j: int| 0 <= j < s.len() ==> s[j] != c,
    ensures
        before_char(s, c) == s,
        after_char(s, c) == Seq::<char>::empty(),
        !s.contains(c),
    decreases s.len(),
{
    if s.len() > 0 {
        lemma_no_char(s.drop_first(), c);
        assert(seq![s[0]] + s.drop_first() =~= s);
    }
}

/// Whether `s` holds the character `c`.
pub fn contains_char(s: &str, c: char) -> (r: bool)
    ensures
        r == s@.contains(c),
{
    let n = s.unicode_len();
    let mut i: usize = 0;
    while i < n
        invariant
            n == s@.len(),
            i <= n,
            forall|j: int| 0 <= j < i ==> s@[j] != c,
        decreases n - i,
    {
        if s.get_char(i) == c {
            assert(s@[i as int] == c);
            return true;
        }
        i = i + 1;
    }
    false
}

/// The value between the first two double quotes of `s` (up to the end when there is
/// only one). `s` must hold a double quote.
pub fn sanitize(s: &str) -> (r: String)
    requires
        s@.contains('"'),
    ensures
        r@ == second_piece(s@, '"'),
{
    let (_, rest) = split_once_char(s, '"');
    match rest {
        Some(rest) => {
            let (value, _) = split_once_char(rest.as_str(), '"');
            value
        },
        None => {
            proof {
                assert(false);
            }
            String::new()
        },
    }
}

/// A path that starts at the root directory.
pub open spec fn is_absolute(p: Seq<char>) -> bool {
    p.len() > 0 && p[0] == '/'
}

/// The result of `path_absolutize`'s `absolutize_from`, as text.
pub uninterp spec fn absolutized(path: Seq<char>, cwd: Seq<char>) -> Seq<char>;

/// `Path::new(path).absolutize_from(cwd)` of the path_absolutize crate, as a string. On Unix
/// the call resolves `.` and `..` lexically against `cwd` without touching the file system
/// and always returns `Ok`; with an absolute `cwd` its result starts at the root, and it is
/// UTF-8 since both inputs are. What the result is beyond that is not stated here.
#[verifier::external_body]
fn absolutize_from(path: &str, cwd: &str) -> (r: String)
    requires
        is_absolute(cwd@),
    ensures
        r@ == absolutized(path@, cwd@),
        is_absolute(r@),
{
    std::path::Path::new(path).absolutize_from(cwd).unwrap().to_str().unwrap().to_string()
}

/// `path` made absolute against the working directory `cwd`.
pub fn get_absolute_path(path: &str, cwd: &str) -> (r: String)
    requires
        is_absolute(cwd@),
    ensures
        r@ == absolutized(path@, cwd@),
        is_absolute(r@),
{
    absolutize_from(path, cwd)
}

/// `path` made absolute against the working directory `cwd`.
pub fn get_absolute_path_buf(path: String, cwd: &str) -> (r: String)
    requires
        is_absolute(cwd@),
    ensures
        r@ == absolutized(path@, cwd@),
        is_absolute(r@),
{
    absolutize_from(path.as_str(), cwd)
}

/// Splits a database spec `name:path` into its name and its path made absolute. The text
/// between the first and second `:` is the path; the spec must hold a `:`.
pub fn get_db_absolute_path(path: &str, cwd: &str) -> (r: (String, String))
    requires
        path@.contains(':'),
        is_absolute(cwd@),
    ensures
        r.0@ == before_char(path@, ':'),
        r.1@ == absolutized(second_piece(path@, ':'), cwd@),
{
    let (name, rest) = split_once_char(path, ':');
    match rest {
        Some(rest) => {
            let (chunk, _) = split_once_char(rest.as_str(), ':');
            let p = get_absolute_path(chunk.as_str(), cwd);
            (name, p)
        },
        None => {
            proof {
                assert(false);
            }
            (name, String::new())
        },
    }
}

} // verus!
