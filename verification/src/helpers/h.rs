//! Name matching for directory entries.
use vstd::prelude::*;
use crate::text::{
    chars_of, contains, contains_exec, ends_with, ends_with_exec, lowercase, occurs_at, starts_with,
    starts_with_exec, to_lower, trim_char, trim_char_exec, trim_end_char, trim_start_char, views,
};

verus! {

/// Glob-style match with `*` only at the start and/or end of the pattern:
/// `*x*` means "contains x", `*x` "ends with x", `x*` "starts with x",
/// and a pattern without a leading or trailing `*` must equal the name.
pub open spec fn glob_match(name: Seq<char>, pattern: Seq<char>) -> bool {
    let pat = trim_char(pattern, '*');
    let lead = pattern.len() > 0 && pattern[0] == '*';
    let trail = pattern.len() > 0 && pattern.last() == '*';
    if lead && trail {
        contains(name, pat)
    } else if lead {
        ends_with(name, pat)
    } else if trail {
        starts_with(name, pat)
    } else {
        name == pattern
    }
}

/// Glob-style filename match (supports leading/trailing `*` only).
pub fn matches_pattern(name: &str, pattern: &str) -> (r: bool)
    ensures
        r == glob_match(name@, pattern@),
{
    let n = chars_of(name);
    let p = chars_of(pattern);
    let pat = trim_char_exec(&p, '*');
    let lead = p.len() > 0 && p[0] == '*';
    let trail = p.len() > 0 && p[p.len() - 1] == '*';
    if lead && trail {
        contains_exec(&n, &pat)
    } else if lead {
        ends_with_exec(&n, &pat)
    } else if trail {
        starts_with_exec(&n, &pat)
    } else {
        let r = n.len() == p.len() && starts_with_exec(&n, &p);
        proof {
            if n@.len() == p@.len() {
                assert(n@.subrange(0, p@.len() as int) =~= n@);
            }
        }
        r
    }
}

/// How a directory entry name is compared with a pattern; both are
/// lower-cased first. The glob rule is the search for subdirectories, so
/// it selects directories only; the prefix rule selects any entry.
#[derive(Clone, Copy, Debug, PartialEq, Eq, Structural)]
pub enum MatchRule {
    /// `matches_pattern` on the lower-cased name and pattern, for
    /// subdirectories only.
    Glob,
    /// The lower-cased name starts with the lower-cased pattern.
    Prefix,
}

/// Whether one lower-cased name matches one lower-cased pattern under `rule`.
pub open spec fn rule_matches(rule: MatchRule, name: Seq<char>, pattern: Seq<char>) -> bool {
    match rule {
        MatchRule::Glob => glob_match(name, pattern),
        MatchRule::Prefix => starts_with(name, pattern),
    }
}

/// Whether a directory entry name matches any of the patterns,
/// ignoring case.
pub open spec fn entry_matches(name: Seq<char>, patterns: Seq<Seq<char>>, rule: MatchRule) -> bool {
    exists|j: int|
        0 <= j < patterns.len() && #[trigger] rule_matches(
            rule,
            lowercase(name),
            lowercase(patterns[j]),
        )
}

/// Whether `name` matches one of `patterns` under `rule`, case-insensitively.
pub fn entry_matches_exec(name: &str, patterns: &Vec<String>, rule: MatchRule) -> (r: bool)
    ensures
        r == entry_matches(name@, views(patterns@), rule),
{
    let lname = to_lower(name);
    let ln = chars_of(lname.as_str());
    for j in 0..patterns.len()
        invariant
            ln@ == lowercase(name@),
            lname@ == lowercase(name@),
            forall|k: int|
                0 <= k < j ==> !#[trigger] rule_matches(
                    rule,
                    lowercase(name@),
                    lowercase(views(patterns@)[k]),
                ),
    {
        let lp = to_lower(patterns[j].as_str());
        let m = match rule {
            MatchRule::Glob => matches_pattern(lname.as_str(), lp.as_str()),
            MatchRule::Prefix => {
                let lpc = chars_of(lp.as_str());
                starts_with_exec(&ln, &lpc)
            },
        };
        assert(views(patterns@)[j as int] == patterns@[j as int]@);
        if m {
            assert(rule_matches(rule, lowercase(name@), lowercase(views(patterns@)[j as int])));
            return true;
        }
    }
    false
}

/// Whether a directory entry is selected: under [`MatchRule::Glob`] only
/// subdirectories are (the directory search), under
/// [`MatchRule::Prefix`] any entry is; and its name must match one of
/// the patterns, ignoring case.
pub open spec fn entry_selected(
    name: Seq<char>,
    is_dir: bool,
    patterns: Seq<Seq<char>>,
    rule: MatchRule,
) -> bool {
    (rule == MatchRule::Prefix || is_dir) && entry_matches(name, patterns, rule)
}

/// Whether entry `i` of a listing is a directory; `is_dir[i]` tells,
/// and missing entries count as not directories.
pub open spec fn dir_flag(is_dir: Seq<bool>, i: int) -> bool {
    i < is_dir.len() && is_dir[i]
}

/// For each entry of a directory listing, whether it is selected
/// (see [`entry_selected`]); `names[i]` is the entry's name and
/// `is_dir[i]` whether it is a directory. This is the selection that
/// `find_matching_dirs` makes of the subdirectories of a directory.
pub fn select_matching(
    names: &Vec<String>,
    is_dir: &Vec<bool>,
    patterns: &Vec<String>,
    rule: MatchRule,
) -> (r: Vec<bool>)
    ensures
        r@.len() == names@.len(),
        forall|i: int|
            0 <= i < names@.len() ==> #[trigger] r@[i] == entry_selected(
                names@[i]@,
                dir_flag(is_dir@, i),
                views(patterns@),
                rule,
            ),
{
    let mut r: Vec<bool> = Vec::new();
    for i in 0..names.len()
        invariant
            r@.len() == i,
            forall|k: int|
                0 <= k < i ==> #[trigger] r@[k] == entry_selected(
                    names@[k]@,
                    dir_flag(is_dir@, k),
                    views(patterns@),
                    rule,
                ),
    {
        let dir = i < is_dir.len() && is_dir[i];
        let eligible = match rule {
            MatchRule::Prefix => true,
            MatchRule::Glob => dir,
        };
        let keep = eligible && entry_matches_exec(names[i].as_str(), patterns, rule);
        r.push(keep);
    }
    r
}

// ---------------------------------------------------------------------
// Laws
// ---------------------------------------------------------------------

proof fn lemma_trim_start_is_suffix(s: Seq<char>, c: char) -> (k: int)
    ensures
        0 <= k <= s.len(),
        trim_start_char(s, c) == s.subrange(k, s.len() as int),
        forall|i: int| 0 <= i < k ==> s[i] == c,
        k < s.len() ==> s[k] != c,
    decreases s.len(),
{
    if s.len() > 0 && s[0] == c {
        let t = s.subrange(1, s.len() as int);
        let k1 = lemma_trim_start_is_suffix(t, c);
        assert(t.subrange(k1, t.len() as int) =~= s.subrange(k1 + 1, s.len() as int));
        assert forall|i: int| 0 <= i < k1 + 1 implies s[i] == c by {
            if i > 0 {
                assert(s[i] == t[i - 1]);
            }
        }
        k1 + 1
    } else {
        assert(s.subrange(0, s.len() as int) =~= s);
        0
    }
}

proof fn lemma_trim_end_is_prefix(s: Seq<char>, c: char) -> (m: int)
    ensures
        0 <= m <= s.len(),
        trim_end_char(s, c) == s.subrange(0, m),
        s.len() > 0 && s.last() != c ==> m == s.len(),
    decreases s.len(),
{
    if s.len() > 0 && s.last() == c {
        let m1 = lemma_trim_end_is_prefix(s.drop_last(), c);
        assert(s.drop_last().subrange(0, m1) =~= s.subrange(0, m1));
        m1
    } else {
        assert(s.subrange(0, s.len() as int) =~= s);
        s.len() as int
    }
}

/// Every name matches itself used as a pattern.
pub proof fn law_name_matches_itself(s: Seq<char>)
    ensures
        glob_match(s, s),
{
    let k = lemma_trim_start_is_suffix(s, '*');
    let t = s.subrange(k, s.len() as int);
    let m = lemma_trim_end_is_prefix(t, '*');
    let pat = trim_char(s, '*');
    assert(pat == s.subrange(k, k + m)) by {
        assert(t.subrange(0, m) =~= s.subrange(k, k + m));
    }
    let lead = s.len() > 0 && s[0] == '*';
    let trail = s.len() > 0 && s.last() == '*';
    if lead && trail {
        assert(occurs_at(s, pat, k));
    } else if lead {
        assert(k < s.len());
        assert(t.last() == s.last());
        assert(m == t.len());
        assert(s.subrange(s.len() - pat.len(), s.len() as int) =~= pat);
    } else if trail {
        assert(k == 0);
        assert(s.subrange(0, pat.len() as int) =~= pat);
    }
}

/// A pattern made of a single `*` matches every name.
pub proof fn law_star_matches_all(name: Seq<char>)
    ensures
        glob_match(name, seq!['*']),
{
    let p = seq!['*'];
    assert(trim_start_char(p, '*') == trim_start_char(p.subrange(1, 1), '*'));
    assert(p.subrange(1, 1) =~= Seq::<char>::empty());
    assert(trim_char(p, '*') =~= Seq::<char>::empty());
    assert(occurs_at(name, Seq::<char>::empty(), 0)) by {
        assert(name.subrange(0, 0) =~= Seq::<char>::empty());
    }
}

/// A pattern with no `*` at either end matches exactly the names equal to it.
pub proof fn law_plain_pattern_is_equality(name: Seq<char>, pattern: Seq<char>)
    requires
        pattern.len() == 0 || (pattern[0] != '*' && pattern.last() != '*'),
    ensures
        glob_match(name, pattern) <==> name == pattern,
{
}

} // verus!
