//! The debloat steps applied to a mounted Windows image. Each step is a
//! list of [`Action`]s that the program carries out in order.
pub mod ai;
pub mod apps;
pub mod appx;
pub mod autounattend;
pub mod cap;
pub mod hive_keys;
pub mod hive_model;
pub mod registry;
pub mod tweaks;

use vstd::prelude::*;
use crate::fixes::registry::{edit_views, HiveEdit, HiveEditView};
use crate::helpers::h::MatchRule;
use crate::text::{join_path, join_path_exec, starts_with, str_views, strings_of, views};

verus! {

/// One thing a debloat step does to the mounted image.
#[derive(Debug)]
pub enum Action {
    /// Remove a file or a directory tree, if it exists; a failure is only
    /// reported.
    Remove(String),
    /// Remove every entry of `dir` that is selected (see
    /// [`crate::helpers::h::entry_selected`]: under the glob rule the
    /// subdirectories whose names match one of `patterns`, under the prefix
    /// rule any entry whose name starts with one); a missing or unreadable
    /// directory is skipped. With `report`, each removal is announced.
    RemoveMatching { dir: String, patterns: Vec<String>, rule: MatchRule, report: bool },
    /// Merge registry operations into a hive; a failure ends the step.
    Edit(HiveEdit),
    /// Apply [`crate::fixes::registry::apply_cbs_ai_tweaks`] to the
    /// servicing packages of the image mounted here; a failure ends the step.
    CbsAiTweaks(String),
}

/// The model of an [`Action`].
pub enum ActionView {
    Remove(Seq<char>),
    RemoveMatching { dir: Seq<char>, patterns: Seq<Seq<char>>, rule: MatchRule, report: bool },
    Edit(HiveEditView),
    CbsAiTweaks(Seq<char>),
}

impl View for Action {
    type V = ActionView;

    open spec fn view(&self) -> ActionView {
        match self {
            Action::Remove(p) => ActionView::Remove(p@),
            Action::RemoveMatching { dir, patterns, rule, report } => ActionView::RemoveMatching {
                dir: dir@,
                patterns: views(patterns@),
                rule: *rule,
                report: *report,
            },
            Action::Edit(e) => ActionView::Edit(e@),
            Action::CbsAiTweaks(m) => ActionView::CbsAiTweaks(m@),
        }
    }
}

/// The models of a sequence of actions.
pub open spec fn action_views(v: Seq<Action>) -> Seq<ActionView> {
    v.map_values(|a: Action| a@)
}

/// Removing each of `rels`, taken relative to `base`.
pub open spec fn removals_under(base: Seq<char>, rels: Seq<Seq<char>>) -> Seq<ActionView> {
    rels.map_values(|r: Seq<char>| ActionView::Remove(join_path(base, r)))
}

/// Editing each hive as `edits` says.
pub open spec fn edit_actions(edits: Seq<HiveEditView>) -> Seq<ActionView> {
    edits.map_values(|e: HiveEditView| ActionView::Edit(e))
}

/// Appends the removal of each of `rels`, taken relative to `base`.
pub fn push_removals(acts: &mut Vec<Action>, base: &str, rels: &[&str])
    ensures
        action_views(final(acts)@) == action_views(old(acts)@) + removals_under(base@, str_views(rels@)),
{
    let ghost start = action_views(acts@);
    let ghost all = removals_under(base@, str_views(rels@));
    for i in 0..rels.len()
        invariant
            all == removals_under(base@, str_views(rels@)),
            action_views(acts@) == start + all.subrange(0, i as int),
    {
        let ghost before = action_views(acts@);
        acts.push(Action::Remove(join_path_exec(base, rels[i])));
        assert(action_views(acts@) =~= before.push(all[i as int]));
        assert(all.subrange(0, i + 1) =~= all.subrange(0, i as int).push(all[i as int]));
    }
    assert(all.subrange(0, rels@.len() as int) =~= all);
}

/// Appends one `RemoveMatching` action.
pub fn push_matching(
    acts: &mut Vec<Action>,
    mount: &str,
    rel: &str,
    patterns: &[&str],
    rule: MatchRule,
    report: bool,
)
    ensures
        action_views(final(acts)@) == action_views(old(acts)@).push(
            ActionView::RemoveMatching {
                dir: join_path(mount@, rel@),
                patterns: str_views(patterns@),
                rule,
                report,
            },
        ),
{
    acts.push(
        Action::RemoveMatching {
            dir: join_path_exec(mount, rel),
            patterns: strings_of(patterns),
            rule,
            report,
        },
    );
    assert(action_views(acts@) =~= action_views(old(acts)@).push(
        ActionView::RemoveMatching {
            dir: join_path(mount@, rel@),
            patterns: str_views(patterns@),
            rule,
            report,
        },
    ));
}

/// Appends an `Edit` action for each edit.
pub fn push_edits(acts: &mut Vec<Action>, edits: Vec<HiveEdit>)
    ensures
        action_views(final(acts)@) == action_views(old(acts)@) + edit_actions(edit_views(edits@)),
{
    let ghost start = action_views(acts@);
    let ghost all = edit_actions(edit_views(edits@));
    let ghost orig = edits@;
    let ghost n = orig.len();
    let mut rest = edits;
    let total = rest.len();
    let mut k: usize = 0;
    assert(orig.subrange(0, n as int) =~= orig);
    while rest.len() > 0
        invariant
            all == edit_actions(edit_views(orig)),
            n == orig.len(),
            total == n,
            k <= n,
            rest@ == orig.subrange(k as int, n as int),
            action_views(acts@) == start + all.subrange(0, k as int),
        decreases rest@.len(),
    {
        let ghost before = action_views(acts@);
        let e = rest.remove(0);
        assert(rest@ =~= orig.subrange(k + 1, n as int));
        acts.push(Action::Edit(e));
        assert(action_views(acts@) =~= before.push(all[k as int]));
        assert(all.subrange(0, k + 1) =~= all.subrange(0, k as int).push(all[k as int]));
        k = k + 1;
    }
    assert(all.subrange(0, n as int) =~= all);
}

// ---------------------------------------------------------------------
// Carrying out the actions
// ---------------------------------------------------------------------

/// How carrying out one action went.
#[derive(Clone, Copy, Debug, PartialEq, Eq, Structural)]
pub enum Outcome {
    /// It did its work (a removal that failed is only reported and counts
    /// as done).
    Done,
    /// It failed.
    Failed,
}

/// What the program does after an action.
#[derive(Clone, Copy, Debug, PartialEq, Eq, Structural)]
pub enum Next {
    /// Carry out the action at this position.
    Run(usize),
    /// All actions were carried out; the step succeeded.
    Finished,
    /// The action just carried out failed and its failure ends the step,
    /// which fails with that action's error.
    Stop,
}

/// Whether a failure of this action ends the step: a failed registry
/// merge or a failed CBS tweak does; removals never do.
pub open spec fn ends_on_failure(a: ActionView) -> bool {
    a is Edit || a is CbsAiTweaks
}

/// What follows the action at position `i` of `acts` with the given
/// outcome: stop on a failure that ends the step, else run the next
/// action, or finish after the last one.
pub open spec fn next_after(acts: Seq<ActionView>, i: int, outcome: Outcome) -> Next {
    if outcome == Outcome::Failed && ends_on_failure(acts[i]) {
        Next::Stop
    } else if i + 1 < acts.len() {
        Next::Run((i + 1) as usize)
    } else {
        Next::Finished
    }
}

/// Where carrying out `acts` starts: at the first action, or finished at
/// once when there is none.
pub fn first_action(acts: &Vec<Action>) -> (r: Next)
    ensures
        r == (if acts@.len() > 0 {
            Next::Run(0)
        } else {
            Next::Finished
        }),
{
    if acts.len() > 0 {
        Next::Run(0)
    } else {
        Next::Finished
    }
}

/// What the program does after carrying out action `i` of `acts` with
/// `outcome` (see [`next_after`]).
pub fn next_action(acts: &Vec<Action>, i: usize, outcome: Outcome) -> (r: Next)
    requires
        i < acts@.len(),
    ensures
        r == next_after(action_views(acts@), i as int, outcome),
{
    let ends = match &acts[i] {
        Action::Edit(_) => true,
        Action::CbsAiTweaks(_) => true,
        Action::Remove(_) => false,
        Action::RemoveMatching { .. } => false,
    };
    assert(action_views(acts@)[i as int] == acts@[i as int]@);
    let failed = match outcome {
        Outcome::Failed => true,
        Outcome::Done => false,
    };
    if failed && ends {
        Next::Stop
    } else if i < acts.len() - 1 {
        Next::Run(i + 1)
    } else {
        Next::Finished
    }
}

/// Whether the run of `acts`, with `outcomes[k]` the outcome of action
/// `k`, carries out action `j`: every earlier action ended without a
/// failure that ends the step.
pub open spec fn carried_out(acts: Seq<ActionView>, outcomes: Seq<Outcome>, j: int) -> bool {
    0 <= j < acts.len() && forall|k: int|
        0 <= k < j ==> !(outcomes[k] == Outcome::Failed && #[trigger] ends_on_failure(acts[k]))
}

// ---------------------------------------------------------------------
// Laws
// ---------------------------------------------------------------------

/// Whether path `p` lies under `mount` as text: it begins with `mount`
/// and, unless `mount` is empty or ends with `/`, it either is `mount` or
/// continues with `/`, so `/mnt/img2` is not under `/mnt/img`. Paths are
/// compared as written; `.` and `..` components are not resolved.
pub open spec fn under(p: Seq<char>, mount: Seq<char>) -> bool {
    &&& starts_with(p, mount)
    &&& (mount.len() == 0 || mount.last() == '/' || p.len() == mount.len() || p[mount.len() as int] == '/')
}

/// Whether an action only names paths under the image mounted at
/// `mount` (see [`under`]).
pub open spec fn within(mount: Seq<char>, a: ActionView) -> bool {
    match a {
        ActionView::Remove(p) => under(p, mount),
        ActionView::RemoveMatching { dir, .. } => under(dir, mount),
        ActionView::Edit(e) => under(e.hive, mount),
        ActionView::CbsAiTweaks(m) => m == mount,
    }
}

/// Whether all actions only name paths under the image at `mount`.
pub open spec fn all_within(mount: Seq<char>, acts: Seq<ActionView>) -> bool {
    forall|i: int| 0 <= i < acts.len() ==> within(mount, #[trigger] acts[i])
}

/// A non-empty path that does not start at the root.
pub open spec fn relative(r: Seq<char>) -> bool {
    r.len() > 0 && r[0] != '/'
}

proof fn lemma_starts_with_trans(a: Seq<char>, b: Seq<char>, c: Seq<char>)
    requires
        starts_with(a, b),
        starts_with(b, c),
    ensures
        starts_with(a, c),
{
    assert(a.subrange(0, c.len() as int) =~= b.subrange(0, c.len() as int));
}

proof fn lemma_join_within(mount: Seq<char>, base: Seq<char>, rel: Seq<char>)
    requires
        under(base, mount),
        relative(rel),
    ensures
        under(join_path(base, rel), mount),
{
    let j = join_path(base, rel);
    crate::text::law_join_stays_under(base, rel);
    lemma_starts_with_trans(j, base, mount);
    if !(mount.len() == 0 || mount.last() == '/') {
        assert(base.len() >= mount.len());
        if base.len() == mount.len() {
            assert(base =~= mount) by {
                assert(base.subrange(0, mount.len() as int) =~= base);
            }
            assert(base.last() != '/');
            assert(j =~= base + seq!['/'] + rel);
            assert(j[mount.len() as int] == '/');
        } else {
            assert(j[mount.len() as int] == base[mount.len() as int]);
        }
    }
}

proof fn lemma_removals_within(mount: Seq<char>, base: Seq<char>, rels: Seq<Seq<char>>)
    requires
        under(base, mount),
        forall|i: int| 0 <= i < rels.len() ==> relative(#[trigger] rels[i]),
    ensures
        all_within(mount, removals_under(base, rels)),
{
    assert forall|i: int| 0 <= i < removals_under(base, rels).len() implies within(
        mount,
        #[trigger] removals_under(base, rels)[i],
    ) by {
        lemma_join_within(mount, base, rels[i]);
    }
}

proof fn lemma_concat_within(mount: Seq<char>, a: Seq<ActionView>, b: Seq<ActionView>)
    requires
        all_within(mount, a),
        all_within(mount, b),
    ensures
        all_within(mount, a + b),
{
    assert forall|i: int| 0 <= i < (a + b).len() implies within(mount, #[trigger] (a + b)[i]) by {
        if i < a.len() {
            assert((a + b)[i] == a[i]);
        } else {
            assert((a + b)[i] == b[i - a.len()]);
        }
    }
}

proof fn lemma_mount_starts_with_itself(mount: Seq<char>)
    ensures
        starts_with(mount, mount),
        under(mount, mount),
{
    assert(mount.subrange(0, mount.len() as int) =~= mount);
}

proof fn lemma_legacy_relative()
    ensures
        forall|i: int|
            0 <= i < crate::fixes::apps::legacy_program_paths().len() ==> relative(
                #[trigger] crate::fixes::apps::legacy_program_paths()[i],
            ),
{
    reveal_strlit("Program Files/Internet Explorer");
    reveal_strlit("Program Files (x86)/Internet Explorer");
    reveal_strlit("Program Files/Windows NT/Accessories/wordpad.exe");
    reveal_strlit("Program Files/Windows NT/Accessories/wordpadfilter.dll");
    reveal_strlit("Windows/System32/psr.exe");
    reveal_strlit("Windows/System32/InkObj.dll");
    reveal_strlit("Windows/System32/InputPersonalization.exe");
    reveal_strlit("Program Files/Windows Media Player");
    reveal_strlit("Program Files (x86)/Windows Media Player");
}

proof fn lemma_speech_and_ise_relative()
    ensures
        forall|i: int|
            0 <= i < crate::fixes::apps::speech_files().len() ==> relative(
                #[trigger] crate::fixes::apps::speech_files()[i],
            ),
        forall|i: int|
            0 <= i < crate::fixes::apps::ise_paths().len() ==> relative(
                #[trigger] crate::fixes::apps::ise_paths()[i],
            ),
{
    reveal_strlit("Speech.dll");
    reveal_strlit("Speech.exe");
    reveal_strlit("Speech.mui");
    reveal_strlit("SpeechUX.dll");
    reveal_strlit("SpeechUX.exe");
    reveal_strlit("SpeechUX.mui");
    reveal_strlit("SpeechSynthesis.dll");
    reveal_strlit("SpeechSynthesis.exe");
    reveal_strlit("SpeechSynthesis.mui");
    reveal_strlit("HandwritingRec.dll");
    reveal_strlit("HandwritingRec.exe");
    reveal_strlit("HandwritingRec.mui");
    reveal_strlit("Windows/System32/WindowsPowerShell/v1.0/PowerShell_ISE.exe");
    reveal_strlit("Windows/SysWOW64/WindowsPowerShell/v1.0/PowerShell_ISE.exe");
}

proof fn lemma_hives_within(mount: Seq<char>, edits: Seq<HiveEditView>)
    requires
        forall|i: int|
            0 <= i < edits.len() ==> exists|h: crate::fixes::registry::Hive| #[trigger] edits[i].hive
                == crate::fixes::registry::hive_path(mount, h),
    ensures
        all_within(mount, edit_actions(edits)),
{
    reveal_strlit("Windows/System32/config/SOFTWARE");
    reveal_strlit("Windows/System32/config/SYSTEM");
    reveal_strlit("Windows/System32/config/DEFAULT");
    reveal_strlit("Users/Default/NTUSER.DAT");
    lemma_mount_starts_with_itself(mount);
    assert forall|i: int| 0 <= i < edit_actions(edits).len() implies within(
        mount,
        #[trigger] edit_actions(edits)[i],
    ) by {
        let h = choose|h: crate::fixes::registry::Hive| #[trigger] edits[i].hive
            == crate::fixes::registry::hive_path(mount, h);
        lemma_join_within(mount, mount, crate::fixes::registry::hive_rel(h));
    }
}

/// Every debloat step stays inside the mounted image: each path it
/// removes, each directory it searches and each hive it edits is written
/// as the mount point, a `/` unless the mount point ends with one, and a
/// relative path (see [`under`]). This holds whatever the language and
/// the patterns, with the paths taken as written.
pub proof fn law_steps_stay_in_image(
    mount: Seq<char>,
    lang: Seq<char>,
    lang_dir_exists: bool,
    patterns: Seq<Seq<char>>,
)
    ensures
        all_within(mount, crate::fixes::apps::capability_removals(mount, lang, lang_dir_exists)),
        all_within(mount, crate::fixes::apps::onedrive_removal(mount)),
        all_within(mount, crate::fixes::apps::edge_removal(mount)),
        all_within(mount, crate::fixes::appx::package_removals(mount, patterns)),
        all_within(mount, crate::fixes::ai::ai_removal(mount)),
{
    lemma_mount_starts_with_itself(mount);
    // capabilities
    lemma_legacy_relative();
    lemma_speech_and_ise_relative();
    lemma_removals_within(mount, mount, crate::fixes::apps::legacy_program_paths());
    lemma_removals_within(mount, mount, crate::fixes::apps::ise_paths());
    reveal_strlit("Windows/System32/");
    let ld = crate::fixes::apps::lang_dir(mount, lang);
    assert(relative("Windows/System32/"@ + lang));
    lemma_join_within(mount, mount, "Windows/System32/"@ + lang);
    lemma_removals_within(mount, ld, crate::fixes::apps::speech_files());
    let a = removals_under(mount, crate::fixes::apps::legacy_program_paths());
    let b = if lang_dir_exists {
        removals_under(ld, crate::fixes::apps::speech_files())
    } else {
        Seq::<ActionView>::empty()
    };
    lemma_concat_within(mount, a, b);
    lemma_concat_within(mount, a + b, removals_under(mount, crate::fixes::apps::ise_paths()));
    // OneDrive
    reveal_strlit("Windows/SysWOW64/OneDriveSetup.exe");
    reveal_strlit("Users/Default/AppData/Roaming/Microsoft/Windows/Start Menu/Programs/OneDrive.lnk");
    reveal_strlit("Windows/SystemApps");
    lemma_join_within(mount, mount, "Windows/SysWOW64/OneDriveSetup.exe"@);
    lemma_join_within(
        mount,
        mount,
        "Users/Default/AppData/Roaming/Microsoft/Windows/Start Menu/Programs/OneDrive.lnk"@,
    );
    lemma_join_within(mount, mount, "Windows/SystemApps"@);
    // Edge
    reveal_strlit("Program Files");
    reveal_strlit("Program Files (x86)");
    reveal_strlit("Microsoft");
    reveal_strlit("Edge");
    reveal_strlit("EdgeCore");
    reveal_strlit("EdgeUpdate");
    reveal_strlit("EdgeWebView");
    reveal_strlit("ProgramData/Microsoft/EdgeUpdate");
    reveal_strlit("ProgramData/Microsoft/Windows/AppRepository/Packages");
    reveal_strlit("Windows/System32/Microsoft-Edge-WebView");
    reveal_strlit("Windows/System32/Tasks");
    let names = seq!["Edge"@, "EdgeCore"@, "EdgeUpdate"@, "EdgeWebView"@];
    assert forall|i: int| 0 <= i < names.len() implies relative(#[trigger] names[i]) by {}
    let pf = join_path(mount, "Program Files"@);
    let px = join_path(mount, "Program Files (x86)"@);
    lemma_join_within(mount, mount, "Program Files"@);
    lemma_join_within(mount, mount, "Program Files (x86)"@);
    lemma_join_within(mount, pf, "Microsoft"@);
    lemma_join_within(mount, px, "Microsoft"@);
    lemma_removals_within(mount, join_path(pf, "Microsoft"@), names);
    lemma_removals_within(mount, join_path(px, "Microsoft"@), names);
    lemma_join_within(mount, mount, "ProgramData/Microsoft/EdgeUpdate"@);
    lemma_join_within(mount, mount, "ProgramData/Microsoft/Windows/AppRepository/Packages"@);
    lemma_join_within(mount, mount, "Windows/System32/Microsoft-Edge-WebView"@);
    lemma_join_within(mount, mount, "Windows/System32/Tasks"@);
    let e1 = crate::fixes::apps::edge_dirs(mount, "Program Files"@);
    let e2 = crate::fixes::apps::edge_dirs(mount, "Program Files (x86)"@);
    let mid = seq![
        ActionView::Remove(join_path(mount, "ProgramData/Microsoft/EdgeUpdate"@)),
        ActionView::RemoveMatching {
            dir: join_path(mount, "ProgramData/Microsoft/Windows/AppRepository/Packages"@),
            patterns: seq![
                "microsoft.microsoftedge.stable*"@,
                "microsoft.microsoftedgedevtoolsclient*"@,
            ],
            rule: MatchRule::Glob,
            report: false,
        },
        ActionView::Remove(join_path(mount, "Windows/System32/Microsoft-Edge-WebView"@)),
        ActionView::RemoveMatching {
            dir: join_path(mount, "Windows/System32/Tasks"@),
            patterns: seq!["microsoftedge"@],
            rule: MatchRule::Prefix,
            report: false,
        },
        ActionView::RemoveMatching {
            dir: join_path(mount, "Windows/SystemApps"@),
            patterns: seq!["microsoft.microsoftedge_*"@],
            rule: MatchRule::Glob,
            report: false,
        },
    ];
    assert(all_within(mount, mid));
    let edge_edits = crate::fixes::registry::edge_registry_edits(mount);
    assert forall|i: int| 0 <= i < edge_edits.len() implies exists|h: crate::fixes::registry::Hive| #[trigger] edge_edits[i].hive
        == crate::fixes::registry::hive_path(mount, h) by {
        if i == 0 {
            assert(edge_edits[i].hive == crate::fixes::registry::hive_path(mount, crate::fixes::registry::Hive::Software));
        } else if i == 1 {
            assert(edge_edits[i].hive == crate::fixes::registry::hive_path(mount, crate::fixes::registry::Hive::System));
        } else if i == 2 {
            assert(edge_edits[i].hive == crate::fixes::registry::hive_path(mount, crate::fixes::registry::Hive::Default));
        } else {
            assert(edge_edits[i].hive == crate::fixes::registry::hive_path(mount, crate::fixes::registry::Hive::NtUser));
        }
    }
    lemma_hives_within(mount, edge_edits);
    lemma_concat_within(mount, e1, e2);
    lemma_concat_within(mount, e1 + e2, mid);
    lemma_concat_within(mount, e1 + e2 + mid, edit_actions(edge_edits));
    // AppX and AI packages
    reveal_strlit("Program Files/WindowsApps");
    lemma_join_within(mount, mount, "Program Files/WindowsApps"@);
    let pr = crate::fixes::appx::package_removals(mount, patterns);
    assert forall|i: int| 0 <= i < pr.len() implies within(mount, #[trigger] pr[i]) by {}
    let ai_edits = crate::fixes::registry::ai_registry_edits(mount);
    assert forall|i: int| 0 <= i < ai_edits.len() implies exists|h: crate::fixes::registry::Hive| #[trigger] ai_edits[i].hive
        == crate::fixes::registry::hive_path(mount, h) by {
        if i == 0 {
            assert(ai_edits[i].hive == crate::fixes::registry::hive_path(mount, crate::fixes::registry::Hive::Software));
        } else if i == 1 {
            assert(ai_edits[i].hive == crate::fixes::registry::hive_path(mount, crate::fixes::registry::Hive::System));
        } else {
            assert(ai_edits[i].hive == crate::fixes::registry::hive_path(mount, crate::fixes::registry::Hive::NtUser));
        }
    }
    lemma_hives_within(mount, ai_edits);
    let pai = crate::fixes::appx::package_removals(mount, crate::fixes::ai::ai_appx_patterns());
    assert forall|i: int| 0 <= i < pai.len() implies within(mount, #[trigger] pai[i]) by {}
    lemma_concat_within(mount, pai, edit_actions(ai_edits));
    assert(all_within(mount, seq![ActionView::CbsAiTweaks(mount)]));
    lemma_concat_within(mount, pai + edit_actions(ai_edits), seq![ActionView::CbsAiTweaks(mount)]);
}

/// Following the decisions from the first action on runs the actions in
/// order and stops exactly at the first failure that ends the step: if
/// action `i` was carried out, what follows it is the next action when
/// that one is carried out too, a stop when action `i` ended the step,
/// and the end of the step otherwise.
pub proof fn law_run_stops_at_first_failure(acts: Seq<ActionView>, outcomes: Seq<Outcome>, i: int)
    requires
        carried_out(acts, outcomes, i),
        outcomes.len() == acts.len(),
    ensures
        carried_out(acts, outcomes, 0),
        i + 1 < acts.len() ==> (next_after(acts, i, outcomes[i]) == Next::Run((i + 1) as usize)
            <==> carried_out(acts, outcomes, i + 1)),
        next_after(acts, i, outcomes[i]) == Next::Stop <==> (outcomes[i] == Outcome::Failed
            && ends_on_failure(acts[i])),
        next_after(acts, i, outcomes[i]) == Next::Finished ==> i == acts.len() - 1 && !(
        outcomes[i] == Outcome::Failed && ends_on_failure(acts[i])),
{
    if i + 1 < acts.len() && carried_out(acts, outcomes, i + 1) {
        assert(!(outcomes[i] == Outcome::Failed && ends_on_failure(acts[i])));
    }
    if i + 1 < acts.len() && !(outcomes[i] == Outcome::Failed && ends_on_failure(acts[i])) {
        assert forall|k: int| 0 <= k < i + 1 implies !(outcomes[k] == Outcome::Failed
            && #[trigger] ends_on_failure(acts[k])) by {}
    }
}

} // verus!
