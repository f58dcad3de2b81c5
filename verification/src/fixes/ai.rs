//! Removal of the AI components: Copilot, Recall and their packages.
use vstd::prelude::*;
use crate::fixes::appx::{package_removals, push_package_removals};
use crate::fixes::registry::{ai_registry_edits, apply_ai_registry_tweaks};
use crate::fixes::{action_views, edit_actions, push_edits, Action, ActionView};
use crate::helpers::h::{entry_selected, rule_matches, MatchRule};
use crate::text::{join_path, lowercase, owned, starts_with, str_views};

verus! {

/// The package name prefixes of the AI components.
pub open spec fn ai_appx_patterns() -> Seq<Seq<char>> {
    seq![
        "Microsoft.Windows.Copilot"@,
        "Microsoft.Copilot"@,
        "MicrosoftWindows.Client.AIX"@,
        "MicrosoftWindows.Client.CoPilot"@,
        "MicrosoftWindows.Client.CoreAI"@,
        "Microsoft.Windows.Ai.Copilot.Provider"@,
        "Microsoft.Edge.GameAssist"@,
        "Microsoft.Office.ActionsServer"@,
        "Microsoft.WritingAssistant"@,
    ]
}

/// Builds the list of [`ai_appx_patterns`].
pub fn ai_appx_patterns_exec() -> (r: Vec<&'static str>)
    ensures
        str_views(r@) == ai_appx_patterns(),
{
    let r: Vec<&'static str> = vec![
        "Microsoft.Windows.Copilot",
        "Microsoft.Copilot",
        "MicrosoftWindows.Client.AIX",
        "MicrosoftWindows.Client.CoPilot",
        "MicrosoftWindows.Client.CoreAI",
        "Microsoft.Windows.Ai.Copilot.Provider",
        "Microsoft.Edge.GameAssist",
        "Microsoft.Office.ActionsServer",
        "Microsoft.WritingAssistant",
    ];
    assert(str_views(r@) =~= ai_appx_patterns());
    r
}

/// What removing the AI components does: remove their packages, apply the
/// AI registry tweaks, then hide their servicing packages.
pub open spec fn ai_removal(mount: Seq<char>) -> Seq<ActionView> {
    package_removals(mount, ai_appx_patterns()) + edit_actions(ai_registry_edits(mount)) + seq![
        ActionView::CbsAiTweaks(mount),
    ]
}

/// Removes the AI components (Copilot, Recall, and related packages) and
/// turns the AI features off in the registry.
pub fn remove_ai(mount: &str) -> (r: Vec<Action>)
    ensures
        action_views(r@) == ai_removal(mount@),
{
    let mut r: Vec<Action> = Vec::new();
    let pats = ai_appx_patterns_exec();
    push_package_removals(&mut r, mount, &pats);
    push_edits(&mut r, apply_ai_registry_tweaks(mount));
    let ghost before = action_views(r@);
    r.push(Action::CbsAiTweaks(owned(mount)));
    assert(action_views(r@) =~= before.push(ActionView::CbsAiTweaks(mount@)));
    assert(action_views(r@) =~= ai_removal(mount@));
    r
}

/// Removing the AI components removes every Copilot and AI package: in
/// each of the three package directories (system apps, installed apps,
/// app repository), an entry whose name starts, ignoring case, with the
/// name of an AI package (Copilot, the AIX, CoPilot and CoreAI clients,
/// the Copilot provider, Game Assist, the Office actions server, the
/// writing assistant) is selected for removal, file or directory.
pub proof fn law_ai_removal_selects_ai_packages(mount: Seq<char>, name: Seq<char>, is_dir: bool, k: int)
    requires
        0 <= k < 3,
        starts_with(lowercase(name), lowercase("Microsoft.Windows.Copilot"@)) ||
        starts_with(lowercase(name), lowercase("Microsoft.Copilot"@)) ||
        starts_with(lowercase(name), lowercase("MicrosoftWindows.Client.AIX"@)) ||
        starts_with(lowercase(name), lowercase("MicrosoftWindows.Client.CoPilot"@)) ||
        starts_with(lowercase(name), lowercase("MicrosoftWindows.Client.CoreAI"@)) ||
        starts_with(lowercase(name), lowercase("Microsoft.Windows.Ai.Copilot.Provider"@)) ||
        starts_with(lowercase(name), lowercase("Microsoft.Edge.GameAssist"@)) ||
        starts_with(lowercase(name), lowercase("Microsoft.Office.ActionsServer"@)) ||
        starts_with(lowercase(name), lowercase("Microsoft.WritingAssistant"@)),
    ensures
        ai_removal(mount)[k] matches ActionView::RemoveMatching { dir, patterns, rule, .. } && dir
            == join_path(
            mount,
            seq![
                "Windows/SystemApps"@,
                "Program Files/WindowsApps"@,
                "ProgramData/Microsoft/Windows/AppRepository/Packages"@,
            ][k],
        ) && entry_selected(name, is_dir, patterns, rule),
{
    let pats = ai_appx_patterns();
    let pr = package_removals(mount, pats);
    let rest = edit_actions(ai_registry_edits(mount)) + seq![ActionView::CbsAiTweaks(mount)];
    assert(ai_removal(mount) =~= pr + rest);
    assert(ai_removal(mount)[k] == pr[k]);
    if starts_with(lowercase(name), lowercase("Microsoft.Windows.Copilot"@)) {
        assert(rule_matches(MatchRule::Prefix, lowercase(name), lowercase(pats[0])));
    } else if starts_with(lowercase(name), lowercase("Microsoft.Copilot"@)) {
        assert(rule_matches(MatchRule::Prefix, lowercase(name), lowercase(pats[1])));
    } else if starts_with(lowercase(name), lowercase("MicrosoftWindows.Client.AIX"@)) {
        assert(rule_matches(MatchRule::Prefix, lowercase(name), lowercase(pats[2])));
    } else if starts_with(lowercase(name), lowercase("MicrosoftWindows.Client.CoPilot"@)) {
        assert(rule_matches(MatchRule::Prefix, lowercase(name), lowercase(pats[3])));
    } else if starts_with(lowercase(name), lowercase("MicrosoftWindows.Client.CoreAI"@)) {
        assert(rule_matches(MatchRule::Prefix, lowercase(name), lowercase(pats[4])));
    } else if starts_with(lowercase(name), lowercase("Microsoft.Windows.Ai.Copilot.Provider"@)) {
        assert(rule_matches(MatchRule::Prefix, lowercase(name), lowercase(pats[5])));
    } else if starts_with(lowercase(name), lowercase("Microsoft.Edge.GameAssist"@)) {
        assert(rule_matches(MatchRule::Prefix, lowercase(name), lowercase(pats[6])));
    } else if starts_with(lowercase(name), lowercase("Microsoft.Office.ActionsServer"@)) {
        assert(rule_matches(MatchRule::Prefix, lowercase(name), lowercase(pats[7])));
    } else if starts_with(lowercase(name), lowercase("Microsoft.WritingAssistant"@)) {
        assert(rule_matches(MatchRule::Prefix, lowercase(name), lowercase(pats[8])));
    }
}

} // verus!
