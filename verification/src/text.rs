//! Character-level string helpers with specifications over `Seq<char>`.
use vstd::prelude::*;
use vstd::string::*;

verus! {

broadcast use vstd::string::group_string_axioms;

// ---------------------------------------------------------------------------
// Specifications
// ---------------------------------------------------------------------------
/// Index of the first occurrence of `c` in `s`.
pub open spec fn find_char(s: Seq<char>, c: char) -> Option<int>
    decreases s.len(),
{
    if s.len() == 0 {
        None
    } else if s[0] == c {
        Some(0)
    } else {
        match find_char(s.drop_first(), c) {
            Some(i) => Some(i + 1),
            None => None,
        }
    }
}

/// The part of `s` before the first `c` (all of `s` when there is none):
/// the first item of `s.split(c)`.
pub open spec fn before_char(s: Seq<char>, c: char) -> Seq<char> {
    match find_char(s, c) {
        Some(i) => s.take(i),
        None => s,
    }
}

/// `s.split_once(c)`.
pub open spec fn split_once(s: Seq<char>, c: char) -> Option<(Seq<char>, Seq<char>)> {
    match find_char(s, c) {
        Some(i) => Some((s.take(i), s.skip(i + 1))),
        None => None,
    }
}

/// The pieces of `s.split(c)`.
pub open spec fn split_on(s: Seq<char>, c: char) -> Seq<Seq<char>>
    decreases s.len(),
{
    match find_char(s, c) {
        Some(i) => if 0 <= i < s.len() {
            seq![s.take(i)] + split_on(s.skip(i + 1), c)
        } else {
            seq![s]
        },
        None => seq![s],
    }
}

/// `p` occurs somewhere in `s`.
pub open spec fn contains_seq(s: Seq<char>, p: Seq<char>) -> bool {
    exists|i: int| 0 <= i && i + p.len() <= s.len() && #[trigger] s.subrange(i, i + p.len()) == p
}

/// `s.replace(p, r)` for a non-empty pattern: every non-overlapping occurrence of `p`,
/// scanning from the left, is replaced by `r`.
pub open spec fn replace_all(s: Seq<char>, p: Seq<char>, r: Seq<char>) -> Seq<char>
    decreases s.len(),
{
    if p.len() == 0 || s.len() < p.len() {
        s
    } else if p.is_prefix_of(s) {
        r + replace_all(s.skip(p.len() as int), p, r)
    } else {
        seq![s[0]] + replace_all(s.drop_first(), p, r)
    }
}

/// `char::is_whitespace` (the Unicode `White_Space` property).
pub open spec fn is_ws(c: char) -> bool {
    ||| c == '\t' || c == '\n' || c == '\u{0B}' || c == '\u{0C}' || c == '\r' || c == ' '
    ||| c == '\u{85}' || c == '\u{A0}' || c == '\u{1680}'
    ||| ('\u{2000}' <= c && c <= '\u{200A}')
    ||| c == '\u{2028}' || c == '\u{2029}' || c == '\u{202F}' || c == '\u{205F}' || c == '\u{3000}'
}

pub open spec fn trim_start(s: Seq<char>) -> Seq<char>
    decreases s.len(),
{
    if s.len() > 0 && is_ws(s[0]) {
        trim_start(s.drop_first())
    } else {
        s
    }
}

pub open spec fn trim_end(s: Seq<char>) -> Seq<char>
    decreases s.len(),
{
    if s.len() > 0 && is_ws(s.last()) {
        trim_end(s.drop_last())
    } else {
        s
    }
}

/// `str::trim`.
pub open spec fn trim(s: Seq<char>) -> Seq<char> {
    trim_end(trim_start(s))
}

/// The string consists only of whitespace (`s.trim().is_empty()`).
pub open spec fn is_blank(s: Seq<char>) -> bool {
    trim(s).len() == 0
}

pub open spec fn is_ascii_upper(c: char) -> bool {
    'A' <= c && c <= 'Z'
}

/// `char::to_ascii_lowercase`.
pub open spec fn ascii_lower(c: char) -> char {
    if is_ascii_upper(c) {
        ((c as u32) + 32) as char
    } else {
        c
    }
}

/// `str::to_ascii_lowercase`.
pub open spec fn lower_seq(s: Seq<char>) -> Seq<char> {
    s.map_values(|c: char| ascii_lower(c))
}

/// `char::is_ascii_alphanumeric`.
pub open spec fn is_ascii_alnum(c: char) -> bool {
    ('0' <= c && c <= '9') || ('a' <= c && c <= 'z') || ('A' <= c && c <= 'Z')
}

/// `s` with only its ASCII alphanumeric characters kept.
pub open spec fn alnum_only(s: Seq<char>) -> Seq<char> {
    s.filter(|c: char| is_ascii_alnum(c))
}

// ---------------------------------------------------------------------------
// Lemmas
// ---------------------------------------------------------------------------
pub proof fn lemma_find_char(s: Seq<char>, c: char)
    ensures
        match find_char(s, c) {
            Some(i) => 0 <= i < s.len() && s[i] == c && forall|j: int| 0 <= j < i ==> s[j] != c,
            None => forall|j: int| 0 <= j < s.len() ==> s[j] != c,
        },
    decreases s.len(),
{
    if s.len() > 0 && s[0] != c {
        lemma_find_char(s.drop_first(), c);
        match find_char(s.drop_first(), c) {
            Some(i) => {
                assert forall|j: int| 0 <= j < i + 1 implies s[j] != c by {
                    if j > 0 {
                        assert(s[j] == s.drop_first()[j - 1]);
                    }
                }
            },
            None => {
                assert forall|j: int| 0 <= j < s.len() implies s[j] != c by {
                    if j > 0 {
                        assert(s[j] == s.drop_first()[j - 1]);
                    }
                }
            },
        }
    }
}

/// A characterisation that pins down `find_char`.
pub proof fn lemma_find_char_is(s: Seq<char>, c: char, i: int)
    requires
        0 <= i < s.len(),
        s[i] == c,
        forall|j: int| 0 <= j < i ==> s[j] != c,
    ensures
        find_char(s, c) == Some(i),
{
    lemma_find_char(s, c);
}

pub proof fn lemma_find_char_none(s: Seq<char>, c: char)
    requires
        forall|j: int| 0 <= j < s.len() ==> s[j] != c,
    ensures
        find_char(s, c) is None,
{
    lemma_find_char(s, c);
}

// ---------------------------------------------------------------------------
// Executable helpers
// ---------------------------------------------------------------------------
/// The characters of `s`, in order.
pub fn chars_of(s: &str) -> (r: Vec<char>)
    ensures
        r@ == s@,
{
    let mut out: Vec<char> = Vec::new();
    for c in it: s.chars()
        invariant
            it.seq() == s@,
            out@ == it.seq().take(it.index() as int),
    {
        out.push(c);
    }
    assert(out@ =~= s@);
    out
}

/// The characters of a `String`.
pub fn chars_of_string(s: &String) -> (r: Vec<char>)
    ensures
        r@ == s@,
{
    chars_of(s.as_str())
}

/// Appends one character (std's `String::push`).
#[verifier::external_body]
fn push_char(s: &mut String, c: char)
    ensures
        final(s)@ == old(s)@.push(c),
{
    s.push(c);
}

/// A `String` holding the given characters.
pub fn string_of(cs: &Vec<char>) -> (r: String)
    ensures
        r@ == cs@,
{
    let mut out = String::new();
    let n = cs.len();
    for i in 0..n
        invariant
            n == cs.len(),
            out@ == cs@.take(i as int),
    {
        push_char(&mut out, cs[i]);
        assert(cs@.take(i + 1) =~= cs@.take(i as int).push(cs@[i as int]));
    }
    assert(cs@.take(n as int) =~= cs@);
    out
}

/// An owned copy of a string slice.
pub fn owned(s: &str) -> (r: String)
    ensures
        r@ == s@,
{
    String::from_str(s)
}

/// An owned copy of a `String` with the same contents.
pub fn copy_string(s: &String) -> (r: String)
    ensures
        r@ == s@,
{
    s.clone()
}

/// Concatenation of two strings.
pub fn concat(a: &String, b: &str) -> (r: String)
    ensures
        r@ == a@ + b@,
{
    let mut out = a.clone();
    out.append(b);
    out
}

/// Character-wise equality.
pub fn seq_eq(a: &Vec<char>, b: &Vec<char>) -> (r: bool)
    ensures
        r == (a@ == b@),
{
    if a.len() != b.len() {
        return false;
    }
    let n = a.len();
    for i in 0..n
        invariant
            n == a.len(),
            n == b.len(),
            forall|j: int| 0 <= j < i ==> a@[j] == b@[j],
    {
        if a[i] != b[i] {
            return false;
        }
    }
    assert(a@ =~= b@);
    true
}

/// String equality.
pub fn str_eq(a: &str, b: &str) -> (r: bool)
    ensures
        r == (a@ == b@),
{
    seq_eq(&chars_of(a), &chars_of(b))
}

/// Index of the first occurrence of `c`.
pub fn find_char_exec(s: &Vec<char>, c: char) -> (r: Option<usize>)
    ensures
        match r {
            Some(i) => find_char(s@, c) == Some(i as int),
            None => find_char(s@, c) is None,
        },
{
    let n = s.len();
    for i in 0..n
        invariant
            n == s.len(),
            forall|j: int| 0 <= j < i ==> s@[j] != c,
    {
        if s[i] == c {
            proof {
                lemma_find_char_is(s@, c, i as int);
            }
            return Some(i);
        }
    }
    proof {
        lemma_find_char_none(s@, c);
    }
    None
}

/// The characters of `s` in `[from, to)`.
pub fn slice_chars(s: &Vec<char>, from: usize, to: usize) -> (r: Vec<char>)
    requires
        from <= to <= s.len(),
    ensures
        r@ == s@.subrange(from as int, to as int),
{
    let mut out: Vec<char> = Vec::new();
    for i in from..to
        invariant
            from <= to <= s.len(),
            out@ == s@.subrange(from as int, i as int),
    {
        out.push(s[i]);
        assert(s@.subrange(from as int, i + 1) =~= s@.subrange(from as int, i as int).push(
            s@[i as int],
        ));
    }
    out
}

/// `s.split(c).next()`: the part before the first `c`.
pub fn before_char_exec(s: &Vec<char>, c: char) -> (r: Vec<char>)
    ensures
        r@ == before_char(s@, c),
{
    match find_char_exec(s, c) {
        Some(i) => {
            proof {
                lemma_find_char(s@, c);
            }
            slice_chars(s, 0, i)
        },
        None => slice_chars(s, 0, s.len()),
    }
}

/// `s.split_once(c)`.
pub fn split_once_exec(s: &Vec<char>, c: char) -> (r: Option<(Vec<char>, Vec<char>)>)
    ensures
        match r {
            Some(p) => split_once(s@, c) == Some((p.0@, p.1@)),
            None => split_once(s@, c) is None,
        },
{
    match find_char_exec(s, c) {
        Some(i) => {
            proof {
                lemma_find_char(s@, c);
            }
            assert(i < s.len());
            let head = slice_chars(s, 0, i);
            let tail = slice_chars(s, i + 1, s.len());
            assert(head@ =~= s@.take(i as int));
            assert(tail@ =~= s@.skip(i + 1));
            Some((head, tail))
        },
        None => None,
    }
}

/// `p` is a prefix of `s`.
pub fn has_prefix(s: &Vec<char>, p: &Vec<char>) -> (r: bool)
    ensures
        r == p@.is_prefix_of(s@),
{
    if p.len() > s.len() {
        return false;
    }
    let n = p.len();
    for i in 0..n
        invariant
            n == p.len(),
            n <= s.len(),
            forall|j: int| 0 <= j < i ==> p@[j] == s@[j],
    {
        if p[i] != s[i] {
            assert(p@[i as int] != s@.subrange(0, p@.len() as int)[i as int]);
            return false;
        }
    }
    assert(p@ =~= s@.subrange(0, p@.len() as int));
    true
}

/// `s` starts with `p`.
pub fn starts_with(s: &str, p: &str) -> (r: bool)
    ensures
        r == p@.is_prefix_of(s@),
{
    has_prefix(&chars_of(s), &chars_of(p))
}

/// `p` matches `s` at position `at`.
fn matches_at(s: &Vec<char>, p: &Vec<char>, at: usize) -> (r: bool)
    requires
        at + p.len() <= s.len(),
    ensures
        r == (s@.subrange(at as int, at + p.len()) == p@),
{
    let n = p.len();
    for i in 0..n
        invariant
            n == p.len(),
            at + n <= s.len(),
            forall|j: int| 0 <= j < i ==> p@[j] == s@[at + j],
    {
        if p[i] != s[at + i] {
            assert(s@.subrange(at as int, at + p.len())[i as int] != p@[i as int]);
            return false;
        }
    }
    assert(s@.subrange(at as int, at + p.len()) =~= p@);
    true
}

/// `p` occurs in `s` (`str::contains`).
pub fn contains_exec(s: &Vec<char>, p: &Vec<char>) -> (r: bool)
    ensures
        r == contains_seq(s@, p@),
{
    if p.len() > s.len() {
        return false;
    }
    if p.len() == 0 {
        assert(s@.subrange(0int, 0int + p@.len()) =~= p@);
        return true;
    }
    let last = s.len() - p.len();
    let mut i: usize = 0;
    while i <= last
        invariant
            last + p.len() == s.len(),
            p.len() > 0,
            i <= last + 1,
            forall|j: int| 0 <= j < i ==> #[trigger] s@.subrange(j, j + p.len()) != p@,
        decreases last + 1 - i,
    {
        if matches_at(s, p, i) {
            return true;
        }
        i = i + 1;
    }
    false
}

/// `s` contains the string `p`.
pub fn contains_str(s: &str, p: &str) -> (r: bool)
    ensures
        r == contains_seq(s@, p@),
{
    contains_exec(&chars_of(s), &chars_of(p))
}

pub proof fn lemma_replace_step(s: Seq<char>, p: Seq<char>, r: Seq<char>, i: int)
    requires
        p.len() > 0,
        0 <= i <= s.len(),
    ensures
        i + p.len() <= s.len() && s.subrange(i, i + p.len()) == p ==> replace_all(s.skip(i), p, r)
            == r + replace_all(s.skip(i + p.len()), p, r),
        i < s.len() && !(i + p.len() <= s.len() && s.subrange(i, i + p.len()) == p)
            ==> replace_all(s.skip(i), p, r) == seq![s[i]] + replace_all(s.skip(i + 1), p, r),
        s.len() - i < p.len() ==> replace_all(s.skip(i), p, r) == s.skip(i),
{
    let t = s.skip(i);
    if t.len() >= p.len() {
        if s.subrange(i, i + p.len()) == p {
            assert(p.is_prefix_of(t)) by {
                assert(t.subrange(0, p.len() as int) =~= s.subrange(i, i + p.len()));
            }
            assert(t.skip(p.len() as int) =~= s.skip(i + p.len()));
        } else {
            assert(!p.is_prefix_of(t)) by {
                if p.is_prefix_of(t) {
                    assert(t.subrange(0, p.len() as int) =~= s.subrange(i, i + p.len()));
                }
            }
            assert(t.drop_first() =~= s.skip(i + 1));
            assert(t[0] == s[i]);
        }
    }
}

/// `s.replace(p, r)` for a non-empty pattern.
pub fn replace_exec(s: &Vec<char>, p: &Vec<char>, r: &Vec<char>) -> (out: Vec<char>)
    requires
        p.len() > 0,
    ensures
        out@ == replace_all(s@, p@, r@),
{
    let mut out: Vec<char> = Vec::new();
    let mut i: usize = 0;
    proof {
        assert(s@.skip(0) =~= s@);
    }
    while i < s.len()
        invariant
            p.len() > 0,
            i <= s.len(),
            out@ + replace_all(s@.skip(i as int), p@, r@) == replace_all(s@, p@, r@),
        decreases s.len() - i,
    {
        proof {
            lemma_replace_step(s@, p@, r@, i as int);
        }
        if p.len() <= s.len() - i && matches_at(s, p, i) {
            let n = r.len();
            let ghost before = out@;
            for k in 0..n
                invariant
                    n == r.len(),
                    out@ == before + r@.take(k as int),
            {
                out.push(r[k]);
                assert(r@.take(k + 1) =~= r@.take(k as int).push(r@[k as int]));
            }
            assert(r@.take(n as int) =~= r@);
            assert(before + (r@ + replace_all(s@.skip(i + p.len()), p@, r@)) =~= out@
                + replace_all(s@.skip(i + p.len()), p@, r@));
            i = i + p.len();
        } else {
            let ghost before = out@;
            out.push(s[i]);
            assert(before + (seq![s@[i as int]] + replace_all(s@.skip(i + 1), p@, r@)) =~= out@
                + replace_all(s@.skip(i + 1), p@, r@));
            i = i + 1;
        }
    }
    proof {
        lemma_replace_step(s@, p@, r@, i as int);
        assert(s@.skip(i as int) =~= Seq::<char>::empty());
        assert(out@ + Seq::<char>::empty() =~= out@);
    }
    out
}

/// `text.replace(pattern, replacement)` on strings, for a non-empty pattern.
pub fn replace_str(text: &String, pattern: &str, replacement: &str) -> (r: String)
    requires
        pattern@.len() > 0,
    ensures
        r@ == replace_all(text@, pattern@, replacement@),
{
    let out = replace_exec(&chars_of_string(text), &chars_of(pattern), &chars_of(replacement));
    string_of(&out)
}

/// `char::is_whitespace`.
pub fn is_ws_exec(c: char) -> (r: bool)
    ensures
        r == is_ws(c),
{
    c == '\t' || c == '\n' || c == '\u{0B}' || c == '\u{0C}' || c == '\r' || c == ' ' || c
        == '\u{85}' || c == '\u{A0}' || c == '\u{1680}' || ('\u{2000}' <= c && c <= '\u{200A}')
        || c == '\u{2028}' || c == '\u{2029}' || c == '\u{202F}' || c == '\u{205F}' || c
        == '\u{3000}'
}

proof fn lemma_trim_start_skip(s: Seq<char>, i: int)
    requires
        0 <= i <= s.len(),
        forall|j: int| 0 <= j < i ==> is_ws(s[j]),
    ensures
        trim_start(s) == trim_start(s.skip(i)),
    decreases i,
{
    if i > 0 {
        lemma_trim_start_skip(s, i - 1);
        let t = s.skip(i - 1);
        assert(t[0] == s[i - 1]);
        assert(t.len() > 0 && is_ws(t[0]));
        assert(t.drop_first() =~= s.skip(i));
    } else {
        assert(s.skip(0) =~= s);
    }
}

proof fn lemma_trim_end_take(s: Seq<char>, k: int)
    requires
        0 <= k <= s.len(),
        forall|j: int| k <= j < s.len() ==> is_ws(s[j]),
    ensures
        trim_end(s) == trim_end(s.take(k)),
    decreases s.len() - k,
{
    if k < s.len() {
        lemma_trim_end_take(s, k + 1);
        let t = s.take(k + 1);
        assert(t.len() > 0 && is_ws(t.last()));
        assert(t.drop_last() =~= s.take(k));
    } else {
        assert(s.take(k) =~= s);
    }
}

/// `str::trim`.
pub fn trim_exec(s: &Vec<char>) -> (r: Vec<char>)
    ensures
        r@ == trim(s@),
{
    let n = s.len();
    let mut start: usize = 0;
    while start < n && is_ws_exec(s[start])
        invariant
            n == s.len(),
            start <= n,
            forall|j: int| 0 <= j < start ==> is_ws(s@[j]),
        decreases n - start,
    {
        start = start + 1;
    }
    proof {
        lemma_trim_start_skip(s@, start as int);
        if start < n {
            assert(!is_ws(s@.skip(start as int)[0]));
        }
    }
    let ghost mid = s@.skip(start as int);
    assert(trim_start(s@) == mid);
    let mut end: usize = n;
    while end > start && is_ws_exec(s[end - 1])
        invariant
            n == s.len(),
            start <= end <= n,
            mid == s@.skip(start as int),
            forall|j: int| end <= j < n ==> is_ws(s@[j]),
        decreases end,
    {
        end = end - 1;
    }
    proof {
        let k = end - start;
        assert forall|j: int| k <= j < mid.len() implies is_ws(mid[j]) by {
            assert(mid[j] == s@[start + j]);
        }
        lemma_trim_end_take(mid, k);
        let t = mid.take(k);
        if k > 0 {
            assert(t.last() == s@[end - 1]);
        }
        assert(t =~= s@.subrange(start as int, end as int));
    }
    slice_chars(s, start, end)
}

/// `s.trim().is_empty()`.
pub fn is_blank_str(s: &str) -> (r: bool)
    ensures
        r == is_blank(s@),
{
    trim_exec(&chars_of(s)).len() == 0
}

/// `s.trim()` as an owned string.
pub fn trim_str(s: &str) -> (r: String)
    ensures
        r@ == trim(s@),
{
    string_of(&trim_exec(&chars_of(s)))
}

/// `char::to_ascii_lowercase`.
pub fn ascii_lower_exec(c: char) -> (r: char)
    ensures
        r == ascii_lower(c),
{
    if 'A' <= c && c <= 'Z' {
        let b = c as u8;
        assert(65 <= b <= 90);
        let l = (b + 32) as char;
        l
    } else {
        c
    }
}

/// `str::to_ascii_lowercase`.
pub fn lower_exec(s: &Vec<char>) -> (r: Vec<char>)
    ensures
        r@ == lower_seq(s@),
{
    let mut out: Vec<char> = Vec::new();
    let n = s.len();
    for i in 0..n
        invariant
            n == s.len(),
            out@ == lower_seq(s@.take(i as int)),
    {
        out.push(ascii_lower_exec(s[i]));
        assert(lower_seq(s@.take(i + 1)) =~= lower_seq(s@.take(i as int)).push(
            ascii_lower(s@[i as int]),
        ));
    }
    assert(s@.take(n as int) =~= s@);
    out
}

/// `char::is_ascii_alphanumeric`.
pub fn is_ascii_alnum_exec(c: char) -> (r: bool)
    ensures
        r == is_ascii_alnum(c),
{
    ('0' <= c && c <= '9') || ('a' <= c && c <= 'z') || ('A' <= c && c <= 'Z')
}

/// Keeps only the ASCII alphanumeric characters.
pub fn alnum_only_exec(s: &Vec<char>) -> (r: Vec<char>)
    ensures
        r@ == alnum_only(s@),
{
    let mut out: Vec<char> = Vec::new();
    let n = s.len();
    for i in 0..n
        invariant
            n == s.len(),
            out@ == alnum_only(s@.take(i as int)),
    {
        let c = s[i];
        proof {
            let pred = |c: char| is_ascii_alnum(c);
            assert(s@.take(i + 1).drop_last() =~= s@.take(i as int));
            reveal(Seq::filter);
        }
        if is_ascii_alnum_exec(c) {
            out.push(c);
        }
    }
    assert(s@.take(n as int) =~= s@);
    out
}


/// The pieces of `s.split(c)`.
pub fn split_exec(s: &Vec<char>, c: char) -> (r: Vec<Vec<char>>)
    ensures
        r@.map_values(|v: Vec<char>| v@) == split_on(s@, c),
{
    let mut out: Vec<Vec<char>> = Vec::new();
    let mut rest = slice_chars(s, 0, s.len());
    let ghost whole = s@;
    assert(rest@ =~= s@);
    assert(out@.map_values(|v: Vec<char>| v@) + split_on(rest@, c) =~= split_on(whole, c));
    loop
        invariant
            whole == s@,
            out@.map_values(|v: Vec<char>| v@) + split_on(rest@, c) == split_on(whole, c),
        decreases rest.len(),
    {
        let ghost prev = out@.map_values(|v: Vec<char>| v@);
        match find_char_exec(&rest, c) {
            Some(i) => {
                proof {
                    lemma_find_char(rest@, c);
                }
                assert(i < rest.len());
                let head = slice_chars(&rest, 0, i);
                let tail = slice_chars(&rest, i + 1, rest.len());
                assert(head@ =~= rest@.take(i as int));
                assert(tail@ =~= rest@.skip(i + 1));
                out.push(head);
                assert(out@.map_values(|v: Vec<char>| v@) =~= prev.push(head@));
                assert(prev.push(head@) + split_on(tail@, c) =~= prev + split_on(rest@, c));
                rest = tail;
            },
            None => {
                let ghost last = rest@;
                assert(split_on(last, c) =~= seq![last]);
                out.push(rest);
                assert(out@.map_values(|v: Vec<char>| v@) =~= prev + seq![last]);
                assert(prev + seq![last] == prev + split_on(last, c));
                assert(out@.map_values(|v: Vec<char>| v@) == split_on(whole, c));
                return out;
            },
        }
    }
}

/// The views of a sequence of strings.
pub open spec fn strs(v: Seq<String>) -> Seq<Seq<char>> {
    v.map_values(|s: String| s@)
}

/// Some string of `v` equals `lit`.
pub fn any_eq(v: &Vec<String>, lit: &str) -> (r: bool)
    ensures
        r == strs(v@).contains(lit@),
{
    let n = v.len();
    for i in 0..n
        invariant
            n == v.len(),
            forall|j: int| 0 <= j < i ==> v@[j]@ != lit@,
    {
        if str_eq(v[i].as_str(), lit) {
            assert(strs(v@)[i as int] == lit@);
            return true;
        }
    }
    proof {
        if strs(v@).contains(lit@) {
            let j = choose|j: int| 0 <= j < strs(v@).len() && strs(v@)[j] == lit@;
            assert(v@[j]@ == lit@);
        }
    }
    false
}

/// A copy of a vector of strings.
pub fn copy_strings(v: &Vec<String>) -> (r: Vec<String>)
    ensures
        strs(r@) == strs(v@),
{
    let mut out: Vec<String> = Vec::new();
    let n = v.len();
    for i in 0..n
        invariant
            n == v.len(),
            out@.len() == i,
            forall|j: int| 0 <= j < i ==> out@[j]@ == v@[j]@,
    {
        out.push(v[i].clone());
    }
    assert(strs(out@) =~= strs(v@));
    out
}

/// `s` with the prefix `p` removed, when `s` starts with it (`str::strip_prefix`).
pub open spec fn strip_prefix(s: Seq<char>, p: Seq<char>) -> Option<Seq<char>> {
    if p.is_prefix_of(s) {
        Some(s.skip(p.len() as int))
    } else {
        None
    }
}

/// `s.strip_prefix(p)`.
pub fn strip_prefix_exec(s: &str, p: &str) -> (r: Option<String>)
    ensures
        match r {
            Some(t) => strip_prefix(s@, p@) == Some(t@),
            None => strip_prefix(s@, p@) is None,
        },
{
    let cs = chars_of(s);
    let ps = chars_of(p);
    if has_prefix(&cs, &ps) {
        let rest = slice_chars(&cs, ps.len(), cs.len());
        assert(rest@ =~= s@.skip(p@.len() as int));
        Some(string_of(&rest))
    } else {
        None
    }
}

/// `parts.join(sep)`.
pub open spec fn joined(parts: Seq<Seq<char>>, sep: Seq<char>) -> Seq<char>
    decreases parts.len(),
{
    if parts.len() == 0 {
        Seq::empty()
    } else if parts.len() == 1 {
        parts[0]
    } else {
        joined(parts.drop_last(), sep) + sep + parts.last()
    }
}

/// `parts.join(sep)`.
pub fn join_strings(parts: &Vec<String>, sep: &str) -> (r: String)
    ensures
        r@ == joined(strs(parts@), sep@),
{
    let ghost all = strs(parts@);
    let mut out = String::new();
    let n = parts.len();
    assert(all.take(0) =~= Seq::<Seq<char>>::empty());
    for i in 0..n
        invariant
            n == parts@.len(),
            all == strs(parts@),
            out@ == joined(all.take(i as int), sep@),
    {
        assert(all.take(i + 1).drop_last() =~= all.take(i as int));
        assert(all.take(i + 1).last() == parts@[i as int]@);
        if i == 0 {
            out = copy_string(&parts[0]);
            assert(all.take(1) =~= seq![parts@[0]@]);
        } else {
            out = concat(&out, sep);
            out = concat(&out, parts[i].as_str());
        }
    }
    assert(all.take(n as int) =~= all);
    out
}

/// `s` ends with `p`.
pub fn ends_with(s: &str, p: &str) -> (r: bool)
    ensures
        r == p@.is_suffix_of(s@),
{
    let cs = chars_of(s);
    let ps = chars_of(p);
    if ps.len() > cs.len() {
        return false;
    }
    let off = cs.len() - ps.len();
    let n = ps.len();
    for i in 0..n
        invariant
            n == ps@.len(),
            cs@ == s@,
            ps@ == p@,
            off + n == cs.len(),
            forall|j: int| 0 <= j < i ==> ps@[j] == cs@[off + j],
    {
        if ps[i] != cs[off + i] {
            assert(ps@[i as int] != cs@.subrange(off as int, cs@.len() as int)[i as int]);
            return false;
        }
    }
    assert(ps@ =~= cs@.subrange(off as int, cs@.len() as int));
    true
}

/// The decimal digits of `n`.
pub open spec fn decimal(n: nat) -> Seq<char>
    decreases n,
{
    if n < 10 {
        seq![(48 + n) as char]
    } else {
        decimal(n / 10) + seq![(48 + n % 10) as char]
    }
}

/// `n.to_string()`.
pub fn u64_text(n: u64) -> (r: String)
    ensures
        r@ == decimal(n as nat),
    decreases n,
{
    let digit = ((n % 10) as u32 + 48u32) as u8 as char;
    proof {
        assert((n % 10) < 10);
    }
    if n < 10 {
        let mut s = String::new();
        push_char(&mut s, digit);
        assert(s@ =~= seq![(48 + n) as char]);
        s
    } else {
        let mut s = u64_text(n / 10);
        let ghost before = s@;
        push_char(&mut s, digit);
        assert(s@ =~= before + seq![(48 + n % 10) as char]);
        s
    }
}

/// `n.to_string()`, for a `u128`.
pub fn u128_text(n: u128) -> (r: String)
    ensures
        r@ == decimal(n as nat),
    decreases n,
{
    let digit = ((n % 10) as u32 + 48u32) as u8 as char;
    proof {
        assert((n % 10) < 10);
    }
    if n < 10 {
        let mut s = String::new();
        push_char(&mut s, digit);
        assert(s@ =~= seq![(48 + n) as char]);
        s
    } else {
        let mut s = u128_text(n / 10);
        let ghost before = s@;
        push_char(&mut s, digit);
        assert(s@ =~= before + seq![(48 + n % 10) as char]);
        s
    }
}

// ---------------------------------------------------------------------------
// UTF-8
// ---------------------------------------------------------------------------
/// The UTF-8 encoding of one character.
pub open spec fn utf8_char(c: char) -> Seq<u8> {
    let n = c as int;
    if n < 0x80 {
        seq![n as u8]
    } else if n < 0x800 {
        seq![(0xC0 + n / 64) as u8, (0x80 + n % 64) as u8]
    } else if n < 0x10000 {
        seq![(0xE0 + n / 4096) as u8, (0x80 + (n / 64) % 64) as u8, (0x80 + n % 64) as u8]
    } else {
        seq![
            (0xF0 + n / 262144) as u8,
            (0x80 + (n / 4096) % 64) as u8,
            (0x80 + (n / 64) % 64) as u8,
            (0x80 + n % 64) as u8,
        ]
    }
}

/// The UTF-8 encoding of a string.
pub open spec fn utf8(s: Seq<char>) -> Seq<u8>
    decreases s.len(),
{
    if s.len() == 0 {
        Seq::empty()
    } else {
        utf8(s.drop_last()) + utf8_char(s.last())
    }
}

/// UTF-8 takes one to four bytes a character.
pub proof fn lemma_utf8_len(s: Seq<char>)
    ensures
        s.len() <= utf8(s).len() <= 4 * s.len(),
    decreases s.len(),
{
    if s.len() > 0 {
        lemma_utf8_len(s.drop_last());
    }
}

/// UTF-8 encodes a concatenation piece by piece.
pub proof fn lemma_utf8_append(a: Seq<char>, b: Seq<char>)
    ensures
        utf8(a + b) == utf8(a) + utf8(b),
    decreases b.len(),
{
    if b.len() == 0 {
        assert(a + b =~= a);
        assert(utf8(a) + utf8(b) =~= utf8(a));
    } else {
        lemma_utf8_append(a, b.drop_last());
        assert((a + b).drop_last() =~= a + b.drop_last());
        assert((a + b).last() == b.last());
        assert(utf8(a) + utf8(b) =~= utf8(a) + utf8(b.drop_last()) + utf8_char(b.last()));
    }
}

/// Text of ASCII characters encodes as one byte per character.
pub proof fn lemma_utf8_ascii(s: Seq<char>)
    requires
        forall|i: int| 0 <= i < s.len() ==> (#[trigger] s[i] as int) < 128,
    ensures
        utf8(s).len() == s.len(),
    decreases s.len(),
{
    if s.len() > 0 {
        assert forall|i: int| 0 <= i < s.drop_last().len() implies (#[trigger] s.drop_last()[i] as int) < 128 by {
            assert(s.drop_last()[i] == s[i]);
        }
        lemma_utf8_ascii(s.drop_last());
        assert((s.last() as int) < 128);
    }
}


} // verus!
