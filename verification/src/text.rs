//! Character-level text operations shared by the rest of the library.
//!
//! Strings are modelled by their view, a `Seq<char>`; the executable
//! functions below work on `&str`/`String` and on `Vec<char>` buffers.
use vstd::prelude::*;

verus! {

// ---------------------------------------------------------------------
// Models
// ---------------------------------------------------------------------

/// `p` is a prefix of `s`.
pub open spec fn starts_with(s: Seq<char>, p: Seq<char>) -> bool {
    p.len() <= s.len() && s.subrange(0, p.len() as int) == p
}

/// `p` is a suffix of `s`.
pub open spec fn ends_with(s: Seq<char>, p: Seq<char>) -> bool {
    p.len() <= s.len() && s.subrange(s.len() - p.len(), s.len() as int) == p
}

/// `p` occurs at position `i` of `s`.
pub open spec fn occurs_at(s: Seq<char>, p: Seq<char>, i: int) -> bool {
    0 <= i && i + p.len() <= s.len() && s.subrange(i, i + p.len()) == p
}

/// `p` occurs somewhere in `s` (the empty sequence occurs everywhere).
pub open spec fn contains(s: Seq<char>, p: Seq<char>) -> bool {
    exists|i: int| #[trigger] occurs_at(s, p, i)
}

/// `s` without its leading occurrences of `c`.
pub open spec fn trim_start_char(s: Seq<char>, c: char) -> Seq<char>
    decreases s.len(),
{
    if s.len() > 0 && s[0] == c {
        trim_start_char(s.subrange(1, s.len() as int), c)
    } else {
        s
    }
}

/// `s` without its trailing occurrences of `c`.
pub open spec fn trim_end_char(s: Seq<char>, c: char) -> Seq<char>
    decreases s.len(),
{
    if s.len() > 0 && s.last() == c {
        trim_end_char(s.drop_last(), c)
    } else {
        s
    }
}

/// `str::trim_matches` with a single character.
pub open spec fn trim_char(s: Seq<char>, c: char) -> Seq<char> {
    trim_end_char(trim_start_char(s, c), c)
}

/// Unicode `White_Space`, the property that `char::is_whitespace` tests.
pub open spec fn is_white(c: char) -> bool {
    ||| ('\u{9}' <= c && c <= '\u{d}')
    ||| c == ' '
    ||| c == '\u{85}'
    ||| c == '\u{a0}'
    ||| c == '\u{1680}'
    ||| ('\u{2000}' <= c && c <= '\u{200a}')
    ||| c == '\u{2028}'
    ||| c == '\u{2029}'
    ||| c == '\u{202f}'
    ||| c == '\u{205f}'
    ||| c == '\u{3000}'
}

/// `s` without leading white space.
pub open spec fn trim_start_white(s: Seq<char>) -> Seq<char>
    decreases s.len(),
{
    if s.len() > 0 && is_white(s[0]) {
        trim_start_white(s.subrange(1, s.len() as int))
    } else {
        s
    }
}

/// `s` without trailing white space.
pub open spec fn trim_end_white(s: Seq<char>) -> Seq<char>
    decreases s.len(),
{
    if s.len() > 0 && is_white(s.last()) {
        trim_end_white(s.drop_last())
    } else {
        s
    }
}

/// `str::trim`.
pub open spec fn trim_white(s: Seq<char>) -> Seq<char> {
    trim_end_white(trim_start_white(s))
}

/// The pieces of `s` between occurrences of `sep` (`str::split` with a
/// character): one more piece than there are separators.
pub open spec fn split_on(s: Seq<char>, sep: char) -> Seq<Seq<char>>
    decreases s.len(),
{
    if s.len() == 0 {
        seq![Seq::<char>::empty()]
    } else {
        let r = split_on(s.drop_last(), sep);
        if s.last() == sep {
            r.push(Seq::<char>::empty())
        } else {
            r.update(r.len() - 1, r.last().push(s.last()))
        }
    }
}

/// The pieces joined back with `sep` between them.
pub open spec fn join_with(parts: Seq<Seq<char>>, sep: Seq<char>) -> Seq<char>
    decreases parts.len(),
{
    if parts.len() == 0 {
        Seq::<char>::empty()
    } else if parts.len() == 1 {
        parts[0]
    } else {
        join_with(parts.drop_last(), sep) + sep + parts.last()
    }
}

/// All occurrences of `from` replaced by `to`, scanning left to right
/// without overlap (`str::replace`); `from` is not empty.
pub open spec fn replace_all(s: Seq<char>, from: Seq<char>, to: Seq<char>) -> Seq<char>
    decreases s.len(),
{
    if s.len() == 0 || from.len() == 0 {
        s
    } else if starts_with(s, from) {
        to + replace_all(s.subrange(from.len() as int, s.len() as int), from, to)
    } else {
        seq![s[0]] + replace_all(s.subrange(1, s.len() as int), from, to)
    }
}

/// Every occurrence of the character `c` replaced by `to`.
pub open spec fn replace_char(s: Seq<char>, c: char, to: Seq<char>) -> Seq<char>
    decreases s.len(),
{
    if s.len() == 0 {
        s
    } else {
        (if s[0] == c {
            to
        } else {
            seq![s[0]]
        }) + replace_char(s.subrange(1, s.len() as int), c, to)
    }
}

/// `s` with the suffix `p` removed as many times as it occurs at the end
/// (`str::trim_end_matches`); `p` is not empty.
pub open spec fn trim_end_seq(s: Seq<char>, p: Seq<char>) -> Seq<char>
    decreases s.len(),
{
    if p.len() > 0 && ends_with(s, p) {
        trim_end_seq(s.subrange(0, s.len() - p.len()), p)
    } else {
        s
    }
}

/// `Path::join` on a relative or absolute path string (Unix separators).
pub open spec fn join_path(base: Seq<char>, rel: Seq<char>) -> Seq<char> {
    if rel.len() > 0 && rel[0] == '/' {
        rel
    } else if base.len() == 0 || base.last() == '/' {
        base + rel
    } else {
        base + seq!['/'] + rel
    }
}

/// What `str::to_lowercase` returns for a string (Unicode case mapping).
pub uninterp spec fn lowercase(s: Seq<char>) -> Seq<char>;

/// The views of a sequence of character buffers.
pub open spec fn vviews(v: Seq<Vec<char>>) -> Seq<Seq<char>> {
    v.map_values(|x: Vec<char>| x@)
}

/// The views of a sequence of string slices.
pub open spec fn str_views(v: Seq<&str>) -> Seq<Seq<char>> {
    v.map_values(|s: &str| s@)
}

/// The views of a sequence of strings.
pub open spec fn views(v: Seq<String>) -> Seq<Seq<char>> {
    v.map_values(|s: String| s@)
}

// ---------------------------------------------------------------------
// Conversions
// ---------------------------------------------------------------------

/// The characters of `s`, in order.
pub fn chars_of(s: &str) -> (v: Vec<char>)
    ensures
        v@ == s@,
{
    let mut v: Vec<char> = Vec::new();
    for c in it: s.chars()
        invariant
            v@ == it.seq().take(it.index() as int),
    {
        v.push(c);
    }
    v
}

/// Appends one character to a string: std's `String::push`, which extends
/// the string by exactly that character.
#[verifier::external_body]
pub(crate) fn push_char(s: &mut String, c: char)
    ensures
        final(s)@ == old(s)@.push(c),
{
    s.push(c);
}

/// Appends the characters of `cs` to `s`.
pub fn push_chars(s: &mut String, cs: &[char])
    ensures
        final(s)@ == old(s)@ + cs@,
{
    let ghost start = s@;
    for i in 0..cs.len()
        invariant
            s@ == start + cs@.subrange(0, i as int),
    {
        push_char(s, cs[i]);
        assert(cs@.subrange(0, i + 1) =~= cs@.subrange(0, i as int).push(cs@[i as int]));
    }
    assert(cs@.subrange(0, cs@.len() as int) =~= cs@);
}

/// A string made of the characters of `cs`.
pub fn string_of(cs: &[char]) -> (s: String)
    ensures
        s@ == cs@,
{
    let mut s = String::new();
    push_chars(&mut s, cs);
    s
}

/// An owned copy of `s`.
pub fn owned(s: &str) -> (r: String)
    ensures
        r@ == s@,
{
    s.to_owned()
}

/// `str::to_lowercase` from std: the Unicode lower-case mapping of `s`,
/// which depends on `s` alone.
#[verifier::external_body]
pub(crate) fn to_lower(s: &str) -> (r: String)
    ensures
        r@ == lowercase(s@),
{
    s.to_lowercase()
}

/// Owned copies of a list of string slices.
pub fn strings_of(v: &[&str]) -> (r: Vec<String>)
    ensures
        views(r@) == str_views(v@),
{
    let mut r: Vec<String> = Vec::new();
    for i in 0..v.len()
        invariant
            r@.len() == i,
            forall|j: int| 0 <= j < i ==> #[trigger] r@[j]@ == v@[j]@,
    {
        r.push(v[i].to_owned());
    }
    assert(views(r@) =~= str_views(v@));
    r
}

// ---------------------------------------------------------------------
// Searching
// ---------------------------------------------------------------------

/// Whether `p` occurs in `s` at position `at`.
pub fn occurs_at_exec(s: &[char], p: &[char], at: usize) -> (r: bool)
    ensures
        r == occurs_at(s@, p@, at as int),
{
    if at > s.len() || p.len() > s.len() - at {
        return false;
    }
    let n = s.len();
    let mut k: usize = 0;
    while k < p.len()
        invariant
            n == s@.len(),
            at + p@.len() <= n,
            k <= p@.len(),
            forall|j: int| 0 <= j < k ==> s@[at + j] == p@[j],
        decreases p@.len() - k,
    {
        if s[at + k] != p[k] {
            assert(s@.subrange(at as int, at + p@.len())[k as int] != p@[k as int]);
            return false;
        }
        k = k + 1;
    }
    assert(s@.subrange(at as int, at + p@.len()) =~= p@);
    true
}

/// Whether `s` starts with `p`.
pub fn starts_with_exec(s: &[char], p: &[char]) -> (r: bool)
    ensures
        r == starts_with(s@, p@),
{
    occurs_at_exec(s, p, 0)
}

/// Whether `s` ends with `p`.
pub fn ends_with_exec(s: &[char], p: &[char]) -> (r: bool)
    ensures
        r == ends_with(s@, p@),
{
    if p.len() > s.len() {
        false
    } else {
        occurs_at_exec(s, p, s.len() - p.len())
    }
}

/// Whether `p` occurs anywhere in `s`.
pub fn contains_exec(s: &[char], p: &[char]) -> (r: bool)
    ensures
        r == contains(s@, p@),
{
    if p.len() > s.len() {
        assert forall|i: int| !occurs_at(s@, p@, i) by {}
        return false;
    }
    let last = s.len() - p.len();
    let mut i: usize = 0;
    while i < last
        invariant
            last + p@.len() == s@.len(),
            i <= last,
            forall|j: int| 0 <= j < i ==> !#[trigger] occurs_at(s@, p@, j),
        decreases last - i,
    {
        if occurs_at_exec(s, p, i) {
            return true;
        }
        i = i + 1;
    }
    if occurs_at_exec(s, p, last) {
        return true;
    }
    assert forall|j: int| !#[trigger] occurs_at(s@, p@, j) by {
        if 0 <= j < i {
        }
    }
    false
}

// ---------------------------------------------------------------------
// Trimming
// ---------------------------------------------------------------------

proof fn lemma_trim_start_char_step(s: Seq<char>, c: char, i: int)
    requires
        0 <= i < s.len(),
        s[i] == c,
    ensures
        trim_start_char(s.subrange(i, s.len() as int), c) == trim_start_char(
            s.subrange(i + 1, s.len() as int),
            c,
        ),
{
    let t = s.subrange(i, s.len() as int);
    assert(t.subrange(1, t.len() as int) =~= s.subrange(i + 1, s.len() as int));
}

proof fn lemma_trim_end_char_step(s: Seq<char>, c: char, j: int)
    requires
        0 < j <= s.len(),
        s[j - 1] == c,
    ensures
        trim_end_char(s.subrange(0, j), c) == trim_end_char(s.subrange(0, j - 1), c),
{
    assert(s.subrange(0, j).drop_last() =~= s.subrange(0, j - 1));
}

/// The characters of `s` from position `i` up to position `j`.
pub fn copy_range(s: &[char], i: usize, j: usize) -> (r: Vec<char>)
    requires
        i <= j <= s@.len(),
    ensures
        r@ == s@.subrange(i as int, j as int),
{
    let mut r: Vec<char> = Vec::new();
    let mut k: usize = i;
    while k < j
        invariant
            i <= k <= j <= s@.len(),
            r@ == s@.subrange(i as int, k as int),
        decreases j - k,
    {
        r.push(s[k]);
        assert(s@.subrange(i as int, k + 1) =~= s@.subrange(i as int, k as int).push(s@[k as int]));
        k = k + 1;
    }
    r
}

fn skip_leading_char(s: &[char], c: char) -> (i: usize)
    ensures
        i <= s@.len(),
        trim_start_char(s@, c) == s@.subrange(i as int, s@.len() as int),
{
    let mut i: usize = 0;
    assert(s@.subrange(0, s@.len() as int) =~= s@);
    while i < s.len() && s[i] == c
        invariant
            i <= s@.len(),
            trim_start_char(s@, c) == trim_start_char(s@.subrange(i as int, s@.len() as int), c),
        decreases s@.len() - i,
    {
        proof {
            lemma_trim_start_char_step(s@, c, i as int);
        }
        i = i + 1;
    }
    i
}

fn skip_trailing_char(s: &[char], i: usize, c: char) -> (j: usize)
    requires
        i <= s@.len(),
    ensures
        i <= j <= s@.len(),
        trim_end_char(s@.subrange(i as int, s@.len() as int), c) == s@.subrange(i as int, j as int),
{
    let ghost rest = s@.subrange(i as int, s@.len() as int);
    let mut j: usize = s.len();
    assert(rest.subrange(0, (j - i) as int) =~= rest);
    while j > i && s[j - 1] == c
        invariant
            i <= j <= s@.len(),
            rest == s@.subrange(i as int, s@.len() as int),
            trim_end_char(rest, c) == trim_end_char(rest.subrange(0, j - i), c),
        decreases j,
    {
        proof {
            lemma_trim_end_char_step(rest, c, j - i);
        }
        j = j - 1;
    }
    assert(rest.subrange(0, j - i) =~= s@.subrange(i as int, j as int));
    j
}

/// `s` without leading and trailing occurrences of `c`.
pub fn trim_char_exec(s: &[char], c: char) -> (r: Vec<char>)
    ensures
        r@ == trim_char(s@, c),
{
    let i = skip_leading_char(s, c);
    let j = skip_trailing_char(s, i, c);
    copy_range(s, i, j)
}

/// Whether `c` is white space (`char::is_whitespace`).
pub fn is_white_exec(c: char) -> (r: bool)
    ensures
        r == is_white(c),
{
    ('\u{9}' <= c && c <= '\u{d}') || c == ' ' || c == '\u{85}' || c == '\u{a0}' || c
        == '\u{1680}' || ('\u{2000}' <= c && c <= '\u{200a}') || c == '\u{2028}' || c
        == '\u{2029}' || c == '\u{202f}' || c == '\u{205f}' || c == '\u{3000}'
}

proof fn lemma_trim_start_white_step(s: Seq<char>, i: int)
    requires
        0 <= i < s.len(),
        is_white(s[i]),
    ensures
        trim_start_white(s.subrange(i, s.len() as int)) == trim_start_white(
            s.subrange(i + 1, s.len() as int),
        ),
{
    let t = s.subrange(i, s.len() as int);
    assert(t.subrange(1, t.len() as int) =~= s.subrange(i + 1, s.len() as int));
}

proof fn lemma_trim_end_white_step(s: Seq<char>, j: int)
    requires
        0 < j <= s.len(),
        is_white(s[j - 1]),
    ensures
        trim_end_white(s.subrange(0, j)) == trim_end_white(s.subrange(0, j - 1)),
{
    assert(s.subrange(0, j).drop_last() =~= s.subrange(0, j - 1));
}

fn skip_leading_white(s: &[char]) -> (i: usize)
    ensures
        i <= s@.len(),
        trim_start_white(s@) == s@.subrange(i as int, s@.len() as int),
{
    let mut i: usize = 0;
    assert(s@.subrange(0, s@.len() as int) =~= s@);
    while i < s.len() && is_white_exec(s[i])
        invariant
            i <= s@.len(),
            trim_start_white(s@) == trim_start_white(s@.subrange(i as int, s@.len() as int)),
        decreases s@.len() - i,
    {
        proof {
            lemma_trim_start_white_step(s@, i as int);
        }
        i = i + 1;
    }
    i
}

fn skip_trailing_white(s: &[char], i: usize) -> (j: usize)
    requires
        i <= s@.len(),
    ensures
        i <= j <= s@.len(),
        trim_end_white(s@.subrange(i as int, s@.len() as int)) == s@.subrange(i as int, j as int),
{
    let ghost rest = s@.subrange(i as int, s@.len() as int);
    let mut j: usize = s.len();
    assert(rest.subrange(0, (j - i) as int) =~= rest);
    while j > i && is_white_exec(s[j - 1])
        invariant
            i <= j <= s@.len(),
            rest == s@.subrange(i as int, s@.len() as int),
            trim_end_white(rest) == trim_end_white(rest.subrange(0, j - i)),
        decreases j,
    {
        proof {
            lemma_trim_end_white_step(rest, j - i);
        }
        j = j - 1;
    }
    assert(rest.subrange(0, j - i) =~= s@.subrange(i as int, j as int));
    j
}

/// `s` without leading and trailing white space (`str::trim`).
pub fn trim_white_exec(s: &[char]) -> (r: Vec<char>)
    ensures
        r@ == trim_white(s@),
{
    let i = skip_leading_white(s);
    let j = skip_trailing_white(s, i);
    copy_range(s, i, j)
}

// ---------------------------------------------------------------------
// Splitting, replacing, joining
// ---------------------------------------------------------------------

/// The pieces of `s` between occurrences of `sep`.
pub fn split_on_exec(s: &[char], sep: char) -> (r: Vec<Vec<char>>)
    ensures
        vviews(r@) == split_on(s@, sep),
{
    let mut parts: Vec<Vec<char>> = Vec::new();
    let mut cur: Vec<char> = Vec::new();
    assert(s@.subrange(0, 0) =~= Seq::<char>::empty());
    for i in 0..s.len()
        invariant
            vviews(parts@).push(cur@) == split_on(s@.subrange(0, i as int), sep),
    {
        let ghost before = vviews(parts@).push(cur@);
        let c = s[i];
        assert(s@.subrange(0, i + 1).drop_last() =~= s@.subrange(0, i as int));
        if c == sep {
            parts.push(cur);
            cur = Vec::new();
            assert(vviews(parts@).push(cur@) =~= before.push(Seq::<char>::empty()));
        } else {
            cur.push(c);
            assert(vviews(parts@).push(cur@) =~= before.update(
                before.len() - 1,
                before.last().push(c),
            ));
        }
    }
    assert(s@.subrange(0, s@.len() as int) =~= s@);
    let ghost before = vviews(parts@).push(cur@);
    parts.push(cur);
    assert(vviews(parts@) =~= before);
    parts
}

/// Replacing characters distributes over concatenation.
pub proof fn lemma_replace_char_append(a: Seq<char>, b: Seq<char>, c: char, to: Seq<char>)
    ensures
        replace_char(a + b, c, to) == replace_char(a, c, to) + replace_char(b, c, to),
    decreases a.len(),
{
    if a.len() == 0 {
        assert(a + b =~= b);
        assert(replace_char(a, c, to) + replace_char(b, c, to) =~= replace_char(b, c, to));
    } else {
        let a1 = a.subrange(1, a.len() as int);
        lemma_replace_char_append(a1, b, c, to);
        assert((a + b).subrange(1, (a + b).len() as int) =~= a1 + b);
        assert((a + b)[0] == a[0]);
        let head = if a[0] == c {
            to
        } else {
            seq![a[0]]
        };
        assert(head + (replace_char(a1, c, to) + replace_char(b, c, to)) =~= (head
            + replace_char(a1, c, to)) + replace_char(b, c, to));
    }
}

/// Replacing in a one-character sequence.
pub proof fn lemma_replace_char_one(x: char, c: char, to: Seq<char>)
    ensures
        replace_char(seq![x], c, to) == (if x == c {
            to
        } else {
            seq![x]
        }),
{
    let s = seq![x];
    assert(s.subrange(1, 1) =~= Seq::<char>::empty());
    let head = if x == c {
        to
    } else {
        seq![x]
    };
    assert(s[0] == x);
    assert(replace_char(s.subrange(1, 1), c, to) =~= Seq::<char>::empty());
    assert(head + Seq::<char>::empty() =~= head);
}

/// Every occurrence of `c` in `s` replaced by `to` (`str::replace` with a
/// character pattern).
pub fn replace_char_exec(s: &[char], c: char, to: &[char]) -> (r: Vec<char>)
    ensures
        r@ == replace_char(s@, c, to@),
{
    let mut r: Vec<char> = Vec::new();
    assert(s@.subrange(0, 0) =~= Seq::<char>::empty());
    for i in 0..s.len()
        invariant
            r@ == replace_char(s@.subrange(0, i as int), c, to@),
    {
        let ghost prev = r@;
        proof {
            assert(s@.subrange(0, i + 1) =~= s@.subrange(0, i as int) + seq![s@[i as int]]);
            lemma_replace_char_append(s@.subrange(0, i as int), seq![s@[i as int]], c, to@);
            lemma_replace_char_one(s@[i as int], c, to@);
        }
        if s[i] == c {
            for k in 0..to.len()
                invariant
                    r@ == prev + to@.subrange(0, k as int),
            {
                r.push(to[k]);
                assert(to@.subrange(0, k + 1) =~= to@.subrange(0, k as int).push(to@[k as int]));
            }
            assert(to@.subrange(0, to@.len() as int) =~= to@);
        } else {
            r.push(s[i]);
        }
        assert(r@ =~= replace_char(s@.subrange(0, i + 1), c, to@));
    }
    assert(s@.subrange(0, s@.len() as int) =~= s@);
    r
}

/// All non-overlapping occurrences of `from` replaced by `to`, left to right
/// (`str::replace`); `from` must not be empty.
pub fn replace_all_exec(s: &[char], from: &[char], to: &[char]) -> (r: Vec<char>)
    requires
        from@.len() > 0,
    ensures
        r@ == replace_all(s@, from@, to@),
{
    let mut r: Vec<char> = Vec::new();
    let mut i: usize = 0;
    assert(s@.subrange(0, s@.len() as int) =~= s@);
    while i < s.len()
        invariant
            i <= s@.len(),
            from@.len() > 0,
            r@ + replace_all(s@.subrange(i as int, s@.len() as int), from@, to@) == replace_all(
                s@,
                from@,
                to@,
            ),
        decreases s@.len() - i,
    {
        let ghost rest = s@.subrange(i as int, s@.len() as int);
        let ghost prev = r@;
        if occurs_at_exec(s, from, i) {
            assert(rest.subrange(0, from@.len() as int) =~= s@.subrange(
                i as int,
                i + from@.len(),
            ));
            assert(rest.subrange(from@.len() as int, rest.len() as int) =~= s@.subrange(
                i + from@.len(),
                s@.len() as int,
            ));
            for k in 0..to.len()
                invariant
                    r@ == prev + to@.subrange(0, k as int),
            {
                r.push(to[k]);
                assert(to@.subrange(0, k + 1) =~= to@.subrange(0, k as int).push(to@[k as int]));
            }
            assert(to@.subrange(0, to@.len() as int) =~= to@);
            assert(r@ + replace_all(
                s@.subrange(i + from@.len(), s@.len() as int),
                from@,
                to@,
            ) =~= prev + replace_all(rest, from@, to@));
            i = i + from.len();
        } else {
            assert(!starts_with(rest, from@)) by {
                if from@.len() <= rest.len() {
                    assert(rest.subrange(0, from@.len() as int) =~= s@.subrange(
                        i as int,
                        i + from@.len(),
                    ));
                }
            }
            assert(rest.subrange(1, rest.len() as int) =~= s@.subrange(i + 1, s@.len() as int));
            r.push(s[i]);
            assert(r@ + replace_all(s@.subrange(i + 1, s@.len() as int), from@, to@) =~= prev
                + replace_all(rest, from@, to@));
            i = i + 1;
        }
    }
    assert(r@ + replace_all(s@.subrange(i as int, s@.len() as int), from@, to@) =~= r@);
    r
}

/// `base` joined with `rel` the way `Path::join` joins them.
pub fn join_path_exec(base: &str, rel: &str) -> (r: String)
    ensures
        r@ == join_path(base@, rel@),
{
    let b = chars_of(base);
    let rl = chars_of(rel);
    let mut r = String::new();
    if rl.len() > 0 && rl[0] == '/' {
        push_chars(&mut r, &rl);
    } else if b.len() == 0 || b[b.len() - 1] == '/' {
        push_chars(&mut r, &b);
        push_chars(&mut r, &rl);
    } else {
        push_chars(&mut r, &b);
        push_char(&mut r, '/');
        push_chars(&mut r, &rl);
    }
    r
}

/// `s` with `p` removed from its end as long as it ends with `p`.
pub fn trim_end_seq_exec(s: &[char], p: &[char]) -> (r: Vec<char>)
    requires
        p@.len() > 0,
    ensures
        r@ == trim_end_seq(s@, p@),
{
    let mut j: usize = s.len();
    assert(s@.subrange(0, j as int) =~= s@);
    let mut more = true;
    while more
        invariant
            j <= s@.len(),
            p@.len() > 0,
            trim_end_seq(s@, p@) == trim_end_seq(s@.subrange(0, j as int), p@),
            !more ==> trim_end_seq(s@, p@) == s@.subrange(0, j as int),
        decreases j + (if more { 1int } else { 0int }),
    {
        let ghost t = s@.subrange(0, j as int);
        if p.len() <= j && occurs_at_exec(s, p, j - p.len()) {
            assert(t.subrange(t.len() - p@.len(), t.len() as int) =~= s@.subrange(
                j - p@.len(),
                j as int,
            ));
            assert(t.subrange(0, t.len() - p@.len()) =~= s@.subrange(0, j - p@.len()));
            j = j - p.len();
        } else {
            assert(!ends_with(t, p@)) by {
                if p@.len() <= t.len() {
                    assert(t.subrange(t.len() - p@.len(), t.len() as int) =~= s@.subrange(
                        j - p@.len(),
                        j as int,
                    ));
                }
            }
            more = false;
        }
    }
    let mut r: Vec<char> = Vec::new();
    for k in 0..j
        invariant
            j <= s@.len(),
            r@ == s@.subrange(0, k as int),
    {
        r.push(s[k]);
        assert(s@.subrange(0, k + 1) =~= s@.subrange(0, k as int).push(s@[k as int]));
    }
    r
}

/// Joining a relative path never leaves the base: the result is the base
/// followed by the relative path, with one separator between them when
/// the base does not end in one.
pub proof fn law_join_stays_under(base: Seq<char>, rel: Seq<char>)
    requires
        rel.len() == 0 || rel[0] != '/',
    ensures
        starts_with(join_path(base, rel), base),
        ends_with(join_path(base, rel), rel),
{
    let j = join_path(base, rel);
    assert(j.subrange(0, base.len() as int) =~= base);
    assert(j.subrange(j.len() - rel.len(), j.len() as int) =~= rel);
}


/// A concatenation contains its first part.
pub proof fn lemma_contains_prefix(x: Seq<char>, y: Seq<char>)
    ensures
        contains(x + y, x),
{
    assert((x + y).subrange(0, x.len() as int) =~= x);
    assert(occurs_at(x + y, x, 0));
}

/// A concatenation contains its last part.
pub proof fn lemma_contains_suffix(x: Seq<char>, y: Seq<char>)
    ensures
        contains(x + y, y),
{
    assert((x + y).subrange(x.len() as int, (x.len() + y.len()) as int) =~= y);
    assert(occurs_at(x + y, y, x.len() as int));
}

/// What a part of a text contains, the text contains.
pub proof fn lemma_contains_trans(a: Seq<char>, b: Seq<char>, c: Seq<char>)
    requires
        contains(a, b),
        contains(b, c),
    ensures
        contains(a, c),
{
    let i = choose|i: int| #[trigger] occurs_at(a, b, i);
    let j = choose|j: int| #[trigger] occurs_at(b, c, j);
    assert(a.subrange(i + j, i + j + c.len()) =~= b.subrange(j, j + c.len()));
    assert(occurs_at(a, c, i + j));
}

/// A text contains itself.
pub proof fn lemma_contains_self(x: Seq<char>)
    ensures
        contains(x, x),
{
    assert(x.subrange(0, x.len() as int) =~= x);
    assert(occurs_at(x, x, 0));
}

} // verus!
