//! Removal of built-in programs: legacy capabilities, OneDrive and Edge.
use vstd::prelude::*;
use crate::fixes::registry::{apply_edge_registry_tweaks, edge_registry_edits};
use crate::fixes::{
    action_views, edit_actions, push_edits, push_matching, push_removals, removals_under, Action,
    ActionView,
};
use crate::helpers::h::MatchRule;
use crate::text::{join_path, join_path_exec, owned, str_views};

verus! {

/// Legacy programs removed from the image, relative to its root:
/// Internet Explorer, WordPad, Steps Recorder, the math and handwriting
/// recognizers and the legacy Media Player.
pub open spec fn legacy_program_paths() -> Seq<Seq<char>> {
    seq![
        "Program Files/Internet Explorer"@,
        "Program Files (x86)/Internet Explorer"@,
        "Program Files/Windows NT/Accessories/wordpad.exe"@,
        "Program Files/Windows NT/Accessories/wordpadfilter.dll"@,
        "Windows/System32/psr.exe"@,
        "Windows/System32/InkObj.dll"@,
        "Windows/System32/InputPersonalization.exe"@,
        "Program Files/Windows Media Player"@,
        "Program Files (x86)/Windows Media Player"@,
    ]
}

/// The speech, speech synthesis and handwriting files of a language
/// directory.
pub open spec fn speech_files() -> Seq<Seq<char>> {
    seq![
        "Speech.dll"@,
        "Speech.exe"@,
        "Speech.mui"@,
        "SpeechUX.dll"@,
        "SpeechUX.exe"@,
        "SpeechUX.mui"@,
        "SpeechSynthesis.dll"@,
        "SpeechSynthesis.exe"@,
        "SpeechSynthesis.mui"@,
        "HandwritingRec.dll"@,
        "HandwritingRec.exe"@,
        "HandwritingRec.mui"@,
    ]
}

/// The PowerShell ISE executables, relative to the image root.
pub open spec fn ise_paths() -> Seq<Seq<char>> {
    seq![
        "Windows/System32/WindowsPowerShell/v1.0/PowerShell_ISE.exe"@,
        "Windows/SysWOW64/WindowsPowerShell/v1.0/PowerShell_ISE.exe"@,
    ]
}

/// The language directory of `lang` in the image.
pub open spec fn lang_dir(mount: Seq<char>, lang: Seq<char>) -> Seq<char> {
    join_path(mount, "Windows/System32/"@ + lang)
}

/// The language directory of `lang` in the image mounted at `mount`; the
/// program checks whether it exists before calling [`remove_capabilities`].
pub fn capability_lang_dir(mount: &str, lang: &str) -> (r: String)
    ensures
        r@ == lang_dir(mount@, lang@),
{
    let mut rel = owned("Windows/System32/");
    rel.append(lang);
    join_path_exec(mount, rel.as_str())
}

/// The removals of the capability step; the speech files are only removed
/// when the language directory exists.
pub open spec fn capability_removals(mount: Seq<char>, lang: Seq<char>, lang_dir_exists: bool) -> Seq<
    ActionView,
> {
    removals_under(mount, legacy_program_paths()) + (if lang_dir_exists {
        removals_under(lang_dir(mount, lang), speech_files())
    } else {
        Seq::<ActionView>::empty()
    }) + removals_under(mount, ise_paths())
}

/// Removes unnecessary Windows capabilities: legacy programs, the speech
/// and handwriting files of language `lang`, and PowerShell ISE.
/// `lang_dir_exists` tells whether [`capability_lang_dir`] exists.
pub fn remove_capabilities(mount: &str, lang: &str, lang_dir_exists: bool) -> (r: Vec<Action>)
    ensures
        action_views(r@) == capability_removals(mount@, lang@, lang_dir_exists),
{
    let mut r: Vec<Action> = Vec::new();
    let legacy: Vec<&str> = vec![
        "Program Files/Internet Explorer",
        "Program Files (x86)/Internet Explorer",
        "Program Files/Windows NT/Accessories/wordpad.exe",
        "Program Files/Windows NT/Accessories/wordpadfilter.dll",
        "Windows/System32/psr.exe",
        "Windows/System32/InkObj.dll",
        "Windows/System32/InputPersonalization.exe",
        "Program Files/Windows Media Player",
        "Program Files (x86)/Windows Media Player",
    ];
    assert(str_views(legacy@) =~= legacy_program_paths());
    push_removals(&mut r, mount, legacy.as_slice());
    let ghost after_legacy = action_views(r@);
    if lang_dir_exists {
        let ld = capability_lang_dir(mount, lang);
        let speech: Vec<&str> = vec![
            "Speech.dll",
            "Speech.exe",
            "Speech.mui",
            "SpeechUX.dll",
            "SpeechUX.exe",
            "SpeechUX.mui",
            "SpeechSynthesis.dll",
            "SpeechSynthesis.exe",
            "SpeechSynthesis.mui",
            "HandwritingRec.dll",
            "HandwritingRec.exe",
            "HandwritingRec.mui",
        ];
        assert(str_views(speech@) =~= speech_files());
        push_removals(&mut r, ld.as_str(), speech.as_slice());
    } else {
        assert(after_legacy + Seq::<ActionView>::empty() =~= after_legacy);
    }
    let ise: Vec<&str> = vec![
        "Windows/System32/WindowsPowerShell/v1.0/PowerShell_ISE.exe",
        "Windows/SysWOW64/WindowsPowerShell/v1.0/PowerShell_ISE.exe",
    ];
    assert(str_views(ise@) =~= ise_paths());
    push_removals(&mut r, mount, ise.as_slice());
    assert(action_views(r@) =~= capability_removals(mount@, lang@, lang_dir_exists));
    r
}

/// What removing OneDrive does.
pub open spec fn onedrive_removal(mount: Seq<char>) -> Seq<ActionView> {
    seq![
        ActionView::Remove(join_path(mount, "Windows/SysWOW64/OneDriveSetup.exe"@)),
        ActionView::Remove(
            join_path(
                mount,
                "Users/Default/AppData/Roaming/Microsoft/Windows/Start Menu/Programs/OneDrive.lnk"@,
            ),
        ),
        ActionView::RemoveMatching {
            dir: join_path(mount, "Windows/SystemApps"@),
            patterns: seq!["microsoft.microsoftskydrive*"@, "microsoft.onedrive*"@],
            rule: MatchRule::Glob,
            report: false,
        },
    ]
}

/// Removes OneDrive: its setup program, the default user's shortcut and
/// its provisioned package directories.
pub fn remove_onedrive(mount: &str) -> (r: Vec<Action>)
    ensures
        action_views(r@) == onedrive_removal(mount@),
{
    let mut r: Vec<Action> = Vec::new();
    r.push(Action::Remove(join_path_exec(mount, "Windows/SysWOW64/OneDriveSetup.exe")));
    r.push(
        Action::Remove(
            join_path_exec(
                mount,
                "Users/Default/AppData/Roaming/Microsoft/Windows/Start Menu/Programs/OneDrive.lnk",
            ),
        ),
    );
    let pats: Vec<&str> = vec!["microsoft.microsoftskydrive*", "microsoft.onedrive*"];
    assert(str_views(pats@) =~= seq!["microsoft.microsoftskydrive*"@, "microsoft.onedrive*"@]);
    push_matching(&mut r, mount, "Windows/SystemApps", pats.as_slice(), MatchRule::Glob, false);
    assert(action_views(r@) =~= onedrive_removal(mount@));
    r
}

/// The Edge program directories under one program files directory.
pub open spec fn edge_dirs(mount: Seq<char>, base: Seq<char>) -> Seq<ActionView> {
    removals_under(
        join_path(join_path(mount, base), "Microsoft"@),
        seq!["Edge"@, "EdgeCore"@, "EdgeUpdate"@, "EdgeWebView"@],
    )
}

/// What removing Microsoft Edge does.
pub open spec fn edge_removal(mount: Seq<char>) -> Seq<ActionView> {
    edge_dirs(mount, "Program Files"@) + edge_dirs(mount, "Program Files (x86)"@) + seq![
        ActionView::Remove(join_path(mount, "ProgramData/Microsoft/EdgeUpdate"@)),
        ActionView::RemoveMatching {
            dir: join_path(mount, "ProgramData/Microsoft/Windows/AppRepository/Packages"@),
            patterns: seq![
                "microsoft.microsoftedge.stable*"@,
                "microsoft.microsoftedgedevtoolsclient*"@,
            ],
            rule: MatchRule::Glob,
            report: false,
        },
        ActionView::Remove(join_path(mount, "Windows/System32/Microsoft-Edge-WebView"@)),
        ActionView::RemoveMatching {
            dir: join_path(mount, "Windows/System32/Tasks"@),
            patterns: seq!["microsoftedge"@],
            rule: MatchRule::Prefix,
            report: false,
        },
        ActionView::RemoveMatching {
            dir: join_path(mount, "Windows/SystemApps"@),
            patterns: seq!["microsoft.microsoftedge_*"@],
            rule: MatchRule::Glob,
            report: false,
        },
    ] + edit_actions(edge_registry_edits(mount))
}

fn push_edge_dirs(acts: &mut Vec<Action>, mount: &str, base: &str)
    ensures
        action_views(final(acts)@) == action_views(old(acts)@) + edge_dirs(mount@, base@),
{
    let b = join_path_exec(mount, base);
    let ms = join_path_exec(b.as_str(), "Microsoft");
    let names: Vec<&str> = vec!["Edge", "EdgeCore", "EdgeUpdate", "EdgeWebView"];
    assert(str_views(names@) =~= seq!["Edge"@, "EdgeCore"@, "EdgeUpdate"@, "EdgeWebView"@]);
    push_removals(acts, ms.as_str(), names.as_slice());
}

/// Removes Microsoft Edge: its program directories, update service data,
/// package entries, WebView, scheduled tasks and registry entries.
pub fn remove_edge(mount: &str) -> (r: Vec<Action>)
    ensures
        action_views(r@) == edge_removal(mount@),
{
    let mut r: Vec<Action> = Vec::new();
    push_edge_dirs(&mut r, mount, "Program Files");
    push_edge_dirs(&mut r, mount, "Program Files (x86)");
    let ghost s0 = action_views(r@);
    assert(s0 =~= edge_dirs(mount@, "Program Files"@) + edge_dirs(mount@, "Program Files (x86)"@));
    r.push(Action::Remove(join_path_exec(mount, "ProgramData/Microsoft/EdgeUpdate")));
    let ghost s1 = action_views(r@);
    assert(s1 =~= s0.push(ActionView::Remove(join_path(mount@, "ProgramData/Microsoft/EdgeUpdate"@))));
    let repo: Vec<&str> = vec!["microsoft.microsoftedge.stable*", "microsoft.microsoftedgedevtoolsclient*"];
    assert(str_views(repo@) =~= seq![
        "microsoft.microsoftedge.stable*"@,
        "microsoft.microsoftedgedevtoolsclient*"@,
    ]);
    push_matching(
        &mut r,
        mount,
        "ProgramData/Microsoft/Windows/AppRepository/Packages",
        repo.as_slice(),
        MatchRule::Glob,
        false,
    );
    let ghost s2 = action_views(r@);
    r.push(Action::Remove(join_path_exec(mount, "Windows/System32/Microsoft-Edge-WebView")));
    let ghost s3 = action_views(r@);
    assert(s3 =~= s2.push(ActionView::Remove(join_path(mount@, "Windows/System32/Microsoft-Edge-WebView"@))));
    let tasks: Vec<&str> = vec!["microsoftedge"];
    assert(str_views(tasks@) =~= seq!["microsoftedge"@]);
    push_matching(&mut r, mount, "Windows/System32/Tasks", tasks.as_slice(), MatchRule::Prefix, false);
    let legacy: Vec<&str> = vec!["microsoft.microsoftedge_*"];
    assert(str_views(legacy@) =~= seq!["microsoft.microsoftedge_*"@]);
    push_matching(&mut r, mount, "Windows/SystemApps", legacy.as_slice(), MatchRule::Glob, false);
    let ghost before_edits = action_views(r@);
    assert(before_edits =~= s0 + seq![
        ActionView::Remove(join_path(mount@, "ProgramData/Microsoft/EdgeUpdate"@)),
        ActionView::RemoveMatching {
            dir: join_path(mount@, "ProgramData/Microsoft/Windows/AppRepository/Packages"@),
            patterns: seq![
                "microsoft.microsoftedge.stable*"@,
                "microsoft.microsoftedgedevtoolsclient*"@,
            ],
            rule: MatchRule::Glob,
            report: false,
        },
        ActionView::Remove(join_path(mount@, "Windows/System32/Microsoft-Edge-WebView"@)),
        ActionView::RemoveMatching {
            dir: join_path(mount@, "Windows/System32/Tasks"@),
            patterns: seq!["microsoftedge"@],
            rule: MatchRule::Prefix,
            report: false,
        },
        ActionView::RemoveMatching {
            dir: join_path(mount@, "Windows/SystemApps"@),
            patterns: seq!["microsoft.microsoftedge_*"@],
            rule: MatchRule::Glob,
            report: false,
        },
    ]);
    push_edits(&mut r, apply_edge_registry_tweaks(mount));
    assert(action_views(r@) =~= edge_removal(mount@));
    r
}

} // verus!
