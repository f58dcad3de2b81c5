//! Removal of Windows capabilities by deleting their servicing manifests.
use vstd::prelude::*;
use crate::text::{
    chars_of, contains, contains_exec, copy_range, join_path, join_path_exec, lowercase, push_chars,
    replace_all, replace_all_exec, str_views, string_of, to_lower, views,
};

verus! {

/// The capability package name patterns; `LANG` stands for the language.
pub open spec fn capability_patterns() -> Seq<Seq<char>> {
    seq![
        "Microsoft-Windows-InternetExplorer-Optional-Package"@,
        "Microsoft-Windows-StepsRecorder-Package"@,
        "Microsoft-Windows-WordPad-FoD-Package"@,
        "Microsoft-Windows-TabletPCMath-Package"@,
        "Microsoft-Windows-MediaPlayer-Package"@,
        "Microsoft-Windows-Wallpaper-Content-Extended-FoD-Package"@,
        "Microsoft-Windows-LanguageFeatures-Handwriting-LANG-Package"@,
        "Microsoft-Windows-LanguageFeatures-OCR-LANG-Package"@,
        "Microsoft-Windows-LanguageFeatures-Speech-LANG-Package"@,
        "Microsoft-Windows-LanguageFeatures-TextToSpeech-LANG-Package"@,
    ]
}

/// The capability patterns with `LANG` replaced by `lang`.
pub open spec fn lang_patterns(lang: Seq<char>) -> Seq<Seq<char>> {
    capability_patterns().map_values(|p: Seq<char>| replace_all(p, "LANG"@, lang))
}

/// The servicing package directory of the image.
pub open spec fn packages_dir(mount: Seq<char>) -> Seq<char> {
    join_path(mount, "Windows/servicing/Packages"@)
}

/// What the capability removal works with: the directory of servicing
/// manifests and the package name patterns for the chosen language.
#[derive(Debug)]
pub struct CapabilityPlan {
    /// The servicing `Packages` directory.
    pub packages_dir: String,
    /// Package name patterns, matched case-insensitively against manifest
    /// stems.
    pub patterns: Vec<String>,
}

/// The removal of capability packages for language `lang`: the program
/// skips the step when the packages directory does not exist, otherwise
/// deletes each manifest that [`find_matching_mums`] selects together with
/// its catalog ([`cat_file_name`]).
pub fn remove_capabilities(mount: &str, lang: &str) -> (r: CapabilityPlan)
    ensures
        r.packages_dir@ == packages_dir(mount@),
        views(r.patterns@) == lang_patterns(lang@),
{
    let pats: Vec<&str> = vec![
        "Microsoft-Windows-InternetExplorer-Optional-Package",
        "Microsoft-Windows-StepsRecorder-Package",
        "Microsoft-Windows-WordPad-FoD-Package",
        "Microsoft-Windows-TabletPCMath-Package",
        "Microsoft-Windows-MediaPlayer-Package",
        "Microsoft-Windows-Wallpaper-Content-Extended-FoD-Package",
        "Microsoft-Windows-LanguageFeatures-Handwriting-LANG-Package",
        "Microsoft-Windows-LanguageFeatures-OCR-LANG-Package",
        "Microsoft-Windows-LanguageFeatures-Speech-LANG-Package",
        "Microsoft-Windows-LanguageFeatures-TextToSpeech-LANG-Package",
    ];
    assert(str_views(pats@) =~= capability_patterns());
    let from = chars_of("LANG");
    let to = chars_of(lang);
    proof {
        reveal_strlit("LANG");
    }
    let mut patterns: Vec<String> = Vec::new();
    for i in 0..pats.len()
        invariant
            str_views(pats@) == capability_patterns(),
            from@ == "LANG"@,
            from@.len() == 4,
            to@ == lang@,
            views(patterns@) == lang_patterns(lang@).subrange(0, i as int),
    {
        let p = chars_of(pats[i]);
        let q = replace_all_exec(&p, &from, &to);
        assert(pats@[i as int]@ == capability_patterns()[i as int]);
        assert(lang_patterns(lang@)[i as int] == replace_all(capability_patterns()[i as int], "LANG"@, lang@));
        let ghost before = views(patterns@);
        assert(lang_patterns(lang@).len() == pats@.len());
        patterns.push(string_of(&q));
        assert(views(patterns@) =~= before.push(q@));
        assert(lang_patterns(lang@).subrange(0, i + 1) =~= lang_patterns(lang@).subrange(0, i as int).push(lang_patterns(lang@)[i as int]));
    }
    assert(lang_patterns(lang@).subrange(0, pats@.len() as int) =~= lang_patterns(lang@));
    CapabilityPlan { packages_dir: join_path_exec(mount, "Windows/servicing/Packages"), patterns }
}

/// The position of the last `c` in `s`, or -1.
pub open spec fn last_index_of(s: Seq<char>, c: char) -> int
    decreases s.len(),
{
    if s.len() == 0 {
        -1
    } else if s.last() == c {
        s.len() - 1
    } else {
        last_index_of(s.drop_last(), c)
    }
}

/// The extension of a file name (`Path::extension`): the part after the
/// last dot, unless there is no dot, the only dot starts the name, or the
/// name is `..`.
pub open spec fn file_extension(name: Seq<char>) -> Option<Seq<char>> {
    let i = last_index_of(name, '.');
    if name == seq!['.', '.'] || i <= 0 {
        None
    } else {
        Some(name.subrange(i + 1, name.len() as int))
    }
}

/// The stem of a file name (`Path::file_stem`): the name without its
/// extension and the dot before it.
pub open spec fn file_stem(name: Seq<char>) -> Seq<char> {
    let i = last_index_of(name, '.');
    if name == seq!['.', '.'] || i <= 0 {
        name
    } else {
        name.subrange(0, i)
    }
}

/// Whether a servicing directory entry is a manifest (`.mum`) whose stem
/// contains one of the patterns, ignoring case.
pub open spec fn is_matching_mum(name: Seq<char>, patterns: Seq<Seq<char>>) -> bool {
    &&& file_extension(name) == Some(seq!['m', 'u', 'm'])
    &&& exists|j: int|
        0 <= j < patterns.len() && #[trigger] contains(
            lowercase(file_stem(name)),
            lowercase(patterns[j]),
        )
}

fn last_index_of_exec(s: &[char], c: char) -> (r: Option<usize>)
    ensures
        match r {
            Some(i) => i as int == last_index_of(s@, c) && i < s@.len(),
            None => last_index_of(s@, c) == -1,
        },
{
    let mut j: usize = s.len();
    assert(s@.subrange(0, j as int) =~= s@);
    while j > 0
        invariant
            j <= s@.len(),
            last_index_of(s@, c) == last_index_of(s@.subrange(0, j as int), c),
        decreases j,
    {
        assert(s@.subrange(0, j as int).last() == s@[j - 1]);
        if s[j - 1] == c {
            return Some(j - 1);
        }
        assert(s@.subrange(0, j as int).drop_last() =~= s@.subrange(0, j - 1));
        j = j - 1;
    }
    None
}

/// The stem and extension of a file name, as `Path::file_stem` and
/// `Path::extension` give them.
pub fn split_file_name(name: &[char]) -> (r: (Vec<char>, Option<Vec<char>>))
    ensures
        r.0@ == file_stem(name@),
        match r.1 {
            Some(e) => file_extension(name@) == Some(e@),
            None => file_extension(name@) is None,
        },
{
    let dotdot = name.len() == 2 && name[0] == '.' && name[1] == '.';
    assert(dotdot == (name@ == seq!['.', '.'])) by {
        if name@.len() == 2 && name@[0] == '.' && name@[1] == '.' {
            assert(name@ =~= seq!['.', '.']);
        }
    }
    match last_index_of_exec(name, '.') {
        Some(i) if !dotdot && i > 0 => (copy_range(name, 0, i), Some(copy_range(name, i + 1, name.len()))),
        _ => (copy_range(name, 0, name.len()), None),
    }
}

/// For each entry of the servicing directory, whether it is a `.mum`
/// manifest whose stem contains one of `patterns` (ignoring case).
pub fn find_matching_mums(names: &Vec<String>, patterns: &Vec<String>) -> (r: Vec<bool>)
    ensures
        r@.len() == names@.len(),
        forall|i: int|
            0 <= i < names@.len() ==> #[trigger] r@[i] == is_matching_mum(
                names@[i]@,
                views(patterns@),
            ),
{
    let mut r: Vec<bool> = Vec::new();
    for i in 0..names.len()
        invariant
            r@.len() == i,
            forall|k: int|
                0 <= k < i ==> #[trigger] r@[k] == is_matching_mum(names@[k]@, views(patterns@)),
    {
        let n = chars_of(names[i].as_str());
        let (stem, ext) = split_file_name(&n);
        assert(n@ == names@[i as int]@);
        let is_mum = match &ext {
            Some(e) => e.len() == 3 && e[0] == 'm' && e[1] == 'u' && e[2] == 'm',
            None => false,
        };
        proof {
            if let Some(e) = &ext {
                if e@.len() == 3 && e@[0] == 'm' && e@[1] == 'u' && e@[2] == 'm' {
                    assert(e@ =~= seq!['m', 'u', 'm']);
                }
            }
        }
        let mut m = false;
        if is_mum {
            let stem_s = string_of(&stem);
            let lstem = to_lower(stem_s.as_str());
            let ls = chars_of(lstem.as_str());
            let mut j: usize = 0;
            while j < patterns.len() && !m
                invariant
                    i < names@.len(),
                    is_mum,
                    ls@ == lowercase(file_stem(names@[i as int]@)),
                    file_extension(names@[i as int]@) == Some(seq!['m', 'u', 'm']),
                    j <= patterns@.len(),
                    m ==> is_matching_mum(names@[i as int]@, views(patterns@)),
                    !m ==> forall|k: int|
                        0 <= k < j ==> !#[trigger] contains(
                            lowercase(file_stem(names@[i as int]@)),
                            lowercase(views(patterns@)[k]),
                        ),
                decreases patterns@.len() - j,
            {
                let lp = to_lower(patterns[j].as_str());
                let lpc = chars_of(lp.as_str());
                assert(views(patterns@)[j as int] == patterns@[j as int]@);
                if contains_exec(&ls, &lpc) {
                    m = true;
                }
                j = j + 1;
            }
        }
        r.push(m);
    }
    r
}

/// The catalog file that belongs to a manifest (`Path::with_extension`
/// with `cat`): the manifest's stem followed by `.cat`.
pub fn cat_file_name(name: &str) -> (r: String)
    ensures
        r@ == file_stem(name@) + seq!['.', 'c', 'a', 't'],
{
    let n = chars_of(name);
    let (stem, _ext) = split_file_name(&n);
    let mut r = string_of(&stem);
    let cat: Vec<char> = vec!['.', 'c', 'a', 't'];
    push_chars(&mut r, &cat);
    r
}

proof fn lemma_last_index_of(s: Seq<char>, c: char)
    ensures
        -1 <= last_index_of(s, c) < s.len(),
        last_index_of(s, c) >= 0 ==> s[last_index_of(s, c)] == c,
        forall|j: int| last_index_of(s, c) < j < s.len() ==> s[j] != c,
    decreases s.len(),
{
    if s.len() > 0 && s.last() != c {
        lemma_last_index_of(s.drop_last(), c);
        assert forall|j: int| last_index_of(s, c) < j < s.len() implies s[j] != c by {
            if j < s.len() - 1 {
                assert(s[j] == s.drop_last()[j]);
            }
        }
    }
}

/// A name with an extension is its stem, a dot, and the extension; the
/// extension holds no dot.
pub proof fn law_stem_dot_extension(name: Seq<char>)
    ensures
        file_extension(name) matches Some(e) ==> name == file_stem(name) + seq!['.'] + e && !e.contains('.'),
        file_extension(name) is None ==> file_stem(name) == name,
{
    lemma_last_index_of(name, '.');
    let i = last_index_of(name, '.');
    if let Some(e) = file_extension(name) {
        assert(name =~= name.subrange(0, i) + seq!['.'] + e);
        if e.contains('.') {
            let j = choose|j: int| 0 <= j < e.len() && e[j] == '.';
            assert(name[i + 1 + j] == '.');
        }
    }
}

/// The catalog of a manifest sits beside it: for a `.mum` manifest, the
/// catalog name is the manifest name with `cat` in place of `mum`.
pub proof fn law_catalog_beside_manifest(stem: Seq<char>)
    requires
        stem.len() > 0,
    ensures
        file_extension(stem + seq!['.', 'm', 'u', 'm']) == Some(seq!['m', 'u', 'm']),
        file_stem(stem + seq!['.', 'm', 'u', 'm']) + seq!['.', 'c', 'a', 't'] == stem + seq![
            '.',
            'c',
            'a',
            't',
        ],
{
    let name = stem + seq!['.', 'm', 'u', 'm'];
    lemma_last_index_of(name, '.');
    let k = stem.len() as int;
    assert(name[k] == '.');
    assert(name[k + 1] == 'm' && name[k + 2] == 'u' && name[k + 3] == 'm');
    assert(last_index_of(name, '.') == k);
    assert(name != seq!['.', '.']) by {
        assert(name.len() != 2);
    }
    assert(name.subrange(k + 1, name.len() as int) =~= seq!['m', 'u', 'm']);
    law_stem_dot_extension(name);
    assert(file_stem(name) + seq!['.'] + seq!['m', 'u', 'm'] == name);
    assert(file_stem(name).len() == stem.len());
    assert(file_stem(name) =~= stem) by {
        assert forall|j: int| 0 <= j < stem.len() implies file_stem(name)[j] == stem[j] by {
            assert((file_stem(name) + seq!['.'] + seq!['m', 'u', 'm'])[j] == name[j]);
        }
    }
}

} // verus!
