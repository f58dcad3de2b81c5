//! AppX removal: deleting provisioned package directories from the image.
use vstd::prelude::*;
use crate::fixes::{action_views, push_matching, Action, ActionView};
use crate::helpers::h::{entry_selected, rule_matches, MatchRule};
use crate::text::{join_path, lowercase, starts_with, str_views};

verus! {

/// The package name prefixes of the bloatware AppX packages.
pub open spec fn appx_patterns() -> Seq<Seq<char>> {
    seq![
        "Microsoft.Microsoft3DViewer"@,
        "Microsoft.WindowsAlarms"@,
        "Microsoft.BingNews"@,
        "Microsoft.BingSearch"@,
        "Microsoft.BingWeather"@,
        "Windows.CBSPreview"@,
        "Clipchamp.Clipchamp"@,
        "Microsoft.549981C3F5F10"@,
        "MicrosoftWindows.CrossDevice"@,
        "Microsoft.Windows.DevHome"@,
        "MicrosoftCorporationII.MicrosoftFamily"@,
        "Microsoft.WindowsFeedbackHub"@,
        "Microsoft.GetHelp"@,
        "Microsoft.Getstarted"@,
        "Microsoft.WindowsCommunicationsapps"@,
        "Microsoft.WindowsMaps"@,
        "Microsoft.MixedReality.Portal"@,
        "Microsoft.ZuneMusic"@,
        "Microsoft.MicrosoftOfficeHub"@,
        "Microsoft.Office.OneNote"@,
        "Microsoft.OutlookForWindows"@,
        "Microsoft.MSPaint"@,
        "Microsoft.People"@,
        "Microsoft.Windows.PeopleExperienceHost"@,
        "Microsoft.YourPhone"@,
        "Microsoft.PowerAutomateDesktop"@,
        "MicrosoftCorporationII.QuickAssist"@,
        "Microsoft.SkypeApp"@,
        "Microsoft.MicrosoftStickyNotes"@,
        "Microsoft.MicrosoftSolitaireCollection"@,
        "MicrosoftTeams"@,
        "MSTeams"@,
        "Microsoft.Windows.Teams"@,
        "Microsoft.Todos"@,
        "Microsoft.ZuneVideo"@,
        "Microsoft.Wallet"@,
        "Microsoft.GamingApp"@,
        "Microsoft.XboxApp"@,
        "Microsoft.XboxGameOverlay"@,
        "Microsoft.XboxGamingOverlay"@,
        "Microsoft.XboxSpeechToTextOverlay"@,
        "Microsoft.Xbox.TCUI"@,
    ]
}

/// Builds the list of [`appx_patterns`].
pub fn appx_patterns_exec() -> (r: Vec<&'static str>)
    ensures
        str_views(r@) == appx_patterns(),
{
    let r: Vec<&'static str> = vec![
        "Microsoft.Microsoft3DViewer",
        "Microsoft.WindowsAlarms",
        "Microsoft.BingNews",
        "Microsoft.BingSearch",
        "Microsoft.BingWeather",
        "Windows.CBSPreview",
        "Clipchamp.Clipchamp",
        "Microsoft.549981C3F5F10",
        "MicrosoftWindows.CrossDevice",
        "Microsoft.Windows.DevHome",
        "MicrosoftCorporationII.MicrosoftFamily",
        "Microsoft.WindowsFeedbackHub",
        "Microsoft.GetHelp",
        "Microsoft.Getstarted",
        "Microsoft.WindowsCommunicationsapps",
        "Microsoft.WindowsMaps",
        "Microsoft.MixedReality.Portal",
        "Microsoft.ZuneMusic",
        "Microsoft.MicrosoftOfficeHub",
        "Microsoft.Office.OneNote",
        "Microsoft.OutlookForWindows",
        "Microsoft.MSPaint",
        "Microsoft.People",
        "Microsoft.Windows.PeopleExperienceHost",
        "Microsoft.YourPhone",
        "Microsoft.PowerAutomateDesktop",
        "MicrosoftCorporationII.QuickAssist",
        "Microsoft.SkypeApp",
        "Microsoft.MicrosoftStickyNotes",
        "Microsoft.MicrosoftSolitaireCollection",
        "MicrosoftTeams",
        "MSTeams",
        "Microsoft.Windows.Teams",
        "Microsoft.Todos",
        "Microsoft.ZuneVideo",
        "Microsoft.Wallet",
        "Microsoft.GamingApp",
        "Microsoft.XboxApp",
        "Microsoft.XboxGameOverlay",
        "Microsoft.XboxGamingOverlay",
        "Microsoft.XboxSpeechToTextOverlay",
        "Microsoft.Xbox.TCUI",
    ];
    assert(str_views(r@) =~= appx_patterns());
    r
}

/// The directories of the image that hold AppX packages, relative to its
/// root: system apps, installed apps, and the app repository.
pub open spec fn package_dirs() -> Seq<Seq<char>> {
    seq![
        "Windows/SystemApps"@,
        "Program Files/WindowsApps"@,
        "ProgramData/Microsoft/Windows/AppRepository/Packages"@,
    ]
}

/// Removing, from each package directory, the entries whose names start
/// with one of `patterns` (ignoring case), announcing each.
pub open spec fn package_removals(mount: Seq<char>, patterns: Seq<Seq<char>>) -> Seq<ActionView> {
    package_dirs().map_values(
        |d: Seq<char>|
            ActionView::RemoveMatching {
                dir: join_path(mount, d),
                patterns,
                rule: MatchRule::Prefix,
                report: true,
            },
    )
}

/// Appends [`package_removals`].
pub fn push_package_removals(acts: &mut Vec<Action>, mount: &str, patterns: &Vec<&str>)
    ensures
        action_views(final(acts)@) == action_views(old(acts)@) + package_removals(
            mount@,
            str_views(patterns@),
        ),
{
    let ghost start = action_views(acts@);
    push_matching(acts, mount, "Windows/SystemApps", patterns.as_slice(), MatchRule::Prefix, true);
    push_matching(acts, mount, "Program Files/WindowsApps", patterns.as_slice(), MatchRule::Prefix, true);
    push_matching(
        acts,
        mount,
        "ProgramData/Microsoft/Windows/AppRepository/Packages",
        patterns.as_slice(),
        MatchRule::Prefix,
        true,
    );
    assert(action_views(acts@) =~= start + package_removals(mount@, str_views(patterns@)));
}

/// Removes the bloatware AppX packages: every entry of the package
/// directories whose name starts with one of [`appx_patterns`].
pub fn remove_appx(mount: &str) -> (r: Vec<Action>)
    ensures
        action_views(r@) == package_removals(mount@, appx_patterns()),
{
    let mut r: Vec<Action> = Vec::new();
    let pats = appx_patterns_exec();
    push_package_removals(&mut r, mount, &pats);
    assert(action_views(r@) =~= package_removals(mount@, appx_patterns()));
    r
}

/// Removing the AppX bloatware removes each of its packages: in each of
/// the three package directories (system apps, installed apps, app
/// repository), an entry whose name starts, ignoring case, with the name
/// of one of the bloatware packages (3D Viewer, Alarms, the Bing apps,
/// Clipchamp, Cortana, Feedback Hub, Mail and Calendar, Maps, Office,
/// OneNote, Outlook, Paint, People, Phone Link, Power Automate, Quick
/// Assist, Skype, Sticky Notes, Solitaire, Teams, To Do, Movies, Wallet,
/// the Xbox apps and the others listed here) is selected for removal.
pub proof fn law_appx_removal_selects_bloatware(mount: Seq<char>, name: Seq<char>, is_dir: bool, k: int)
    requires
        0 <= k < 3,
        starts_with(lowercase(name), lowercase("Microsoft.Microsoft3DViewer"@)) ||
        starts_with(lowercase(name), lowercase("Microsoft.WindowsAlarms"@)) ||
        starts_with(lowercase(name), lowercase("Microsoft.BingNews"@)) ||
        starts_with(lowercase(name), lowercase("Microsoft.BingSearch"@)) ||
        starts_with(lowercase(name), lowercase("Microsoft.BingWeather"@)) ||
        starts_with(lowercase(name), lowercase("Windows.CBSPreview"@)) ||
        starts_with(lowercase(name), lowercase("Clipchamp.Clipchamp"@)) ||
        starts_with(lowercase(name), lowercase("Microsoft.549981C3F5F10"@)) ||
        starts_with(lowercase(name), lowercase("MicrosoftWindows.CrossDevice"@)) ||
        starts_with(lowercase(name), lowercase("Microsoft.Windows.DevHome"@)) ||
        starts_with(lowercase(name), lowercase("MicrosoftCorporationII.MicrosoftFamily"@)) ||
        starts_with(lowercase(name), lowercase("Microsoft.WindowsFeedbackHub"@)) ||
        starts_with(lowercase(name), lowercase("Microsoft.GetHelp"@)) ||
        starts_with(lowercase(name), lowercase("Microsoft.Getstarted"@)) ||
        starts_with(lowercase(name), lowercase("Microsoft.WindowsCommunicationsapps"@)) ||
        starts_with(lowercase(name), lowercase("Microsoft.WindowsMaps"@)) ||
        starts_with(lowercase(name), lowercase("Microsoft.MixedReality.Portal"@)) ||
        starts_with(lowercase(name), lowercase("Microsoft.ZuneMusic"@)) ||
        starts_with(lowercase(name), lowercase("Microsoft.MicrosoftOfficeHub"@)) ||
        starts_with(lowercase(name), lowercase("Microsoft.Office.OneNote"@)) ||
        starts_with(lowercase(name), lowercase("Microsoft.OutlookForWindows"@)) ||
        starts_with(lowercase(name), lowercase("Microsoft.MSPaint"@)) ||
        starts_with(lowercase(name), lowercase("Microsoft.People"@)) ||
        starts_with(lowercase(name), lowercase("Microsoft.Windows.PeopleExperienceHost"@)) ||
        starts_with(lowercase(name), lowercase("Microsoft.YourPhone"@)) ||
        starts_with(lowercase(name), lowercase("Microsoft.PowerAutomateDesktop"@)) ||
        starts_with(lowercase(name), lowercase("MicrosoftCorporationII.QuickAssist"@)) ||
        starts_with(lowercase(name), lowercase("Microsoft.SkypeApp"@)) ||
        starts_with(lowercase(name), lowercase("Microsoft.MicrosoftStickyNotes"@)) ||
        starts_with(lowercase(name), lowercase("Microsoft.MicrosoftSolitaireCollection"@)) ||
        starts_with(lowercase(name), lowercase("MicrosoftTeams"@)) ||
        starts_with(lowercase(name), lowercase("MSTeams"@)) ||
        starts_with(lowercase(name), lowercase("Microsoft.Windows.Teams"@)) ||
        starts_with(lowercase(name), lowercase("Microsoft.Todos"@)) ||
        starts_with(lowercase(name), lowercase("Microsoft.ZuneVideo"@)) ||
        starts_with(lowercase(name), lowercase("Microsoft.Wallet"@)) ||
        starts_with(lowercase(name), lowercase("Microsoft.GamingApp"@)) ||
        starts_with(lowercase(name), lowercase("Microsoft.XboxApp"@)) ||
        starts_with(lowercase(name), lowercase("Microsoft.XboxGameOverlay"@)) ||
        starts_with(lowercase(name), lowercase("Microsoft.XboxGamingOverlay"@)) ||
        starts_with(lowercase(name), lowercase("Microsoft.XboxSpeechToTextOverlay"@)) ||
        starts_with(lowercase(name), lowercase("Microsoft.Xbox.TCUI"@)),
    ensures
        package_removals(mount, appx_patterns())[k] matches ActionView::RemoveMatching {
            dir,
            patterns,
            rule,
            ..
        } && dir == join_path(
            mount,
            seq![
                "Windows/SystemApps"@,
                "Program Files/WindowsApps"@,
                "ProgramData/Microsoft/Windows/AppRepository/Packages"@,
            ][k],
        ) && entry_selected(name, is_dir, patterns, rule),
{
    let pats = appx_patterns();
    if starts_with(lowercase(name), lowercase("Microsoft.Microsoft3DViewer"@)) {
        assert(rule_matches(MatchRule::Prefix, lowercase(name), lowercase(pats[0])));
    } else if starts_with(lowercase(name), lowercase("Microsoft.WindowsAlarms"@)) {
        assert(rule_matches(MatchRule::Prefix, lowercase(name), lowercase(pats[1])));
    } else if starts_with(lowercase(name), lowercase("Microsoft.BingNews"@)) {
        assert(rule_matches(MatchRule::Prefix, lowercase(name), lowercase(pats[2])));
    } else if starts_with(lowercase(name), lowercase("Microsoft.BingSearch"@)) {
        assert(rule_matches(MatchRule::Prefix, lowercase(name), lowercase(pats[3])));
    } else if starts_with(lowercase(name), lowercase("Microsoft.BingWeather"@)) {
        assert(rule_matches(MatchRule::Prefix, lowercase(name), lowercase(pats[4])));
    } else if starts_with(lowercase(name), lowercase("Windows.CBSPreview"@)) {
        assert(rule_matches(MatchRule::Prefix, lowercase(name), lowercase(pats[5])));
    } else if starts_with(lowercase(name), lowercase("Clipchamp.Clipchamp"@)) {
        assert(rule_matches(MatchRule::Prefix, lowercase(name), lowercase(pats[6])));
    } else if starts_with(lowercase(name), lowercase("Microsoft.549981C3F5F10"@)) {
        assert(rule_matches(MatchRule::Prefix, lowercase(name), lowercase(pats[7])));
    } else if starts_with(lowercase(name), lowercase("MicrosoftWindows.CrossDevice"@)) {
        assert(rule_matches(MatchRule::Prefix, lowercase(name), lowercase(pats[8])));
    } else if starts_with(lowercase(name), lowercase("Microsoft.Windows.DevHome"@)) {
        assert(rule_matches(MatchRule::Prefix, lowercase(name), lowercase(pats[9])));
    } else if starts_with(lowercase(name), lowercase("MicrosoftCorporationII.MicrosoftFamily"@)) {
        assert(rule_matches(MatchRule::Prefix, lowercase(name), lowercase(pats[10])));
    } else if starts_with(lowercase(name), lowercase("Microsoft.WindowsFeedbackHub"@)) {
        assert(rule_matches(MatchRule::Prefix, lowercase(name), lowercase(pats[11])));
    } else if starts_with(lowercase(name), lowercase("Microsoft.GetHelp"@)) {
        assert(rule_matches(MatchRule::Prefix, lowercase(name), lowercase(pats[12])));
    } else if starts_with(lowercase(name), lowercase("Microsoft.Getstarted"@)) {
        assert(rule_matches(MatchRule::Prefix, lowercase(name), lowercase(pats[13])));
    } else if starts_with(lowercase(name), lowercase("Microsoft.WindowsCommunicationsapps"@)) {
        assert(rule_matches(MatchRule::Prefix, lowercase(name), lowercase(pats[14])));
    } else if starts_with(lowercase(name), lowercase("Microsoft.WindowsMaps"@)) {
        assert(rule_matches(MatchRule::Prefix, lowercase(name), lowercase(pats[15])));
    } else if starts_with(lowercase(name), lowercase("Microsoft.MixedReality.Portal"@)) {
        assert(rule_matches(MatchRule::Prefix, lowercase(name), lowercase(pats[16])));
    } else if starts_with(lowercase(name), lowercase("Microsoft.ZuneMusic"@)) {
        assert(rule_matches(MatchRule::Prefix, lowercase(name), lowercase(pats[17])));
    } else if starts_with(lowercase(name), lowercase("Microsoft.MicrosoftOfficeHub"@)) {
        assert(rule_matches(MatchRule::Prefix, lowercase(name), lowercase(pats[18])));
    } else if starts_with(lowercase(name), lowercase("Microsoft.Office.OneNote"@)) {
        assert(rule_matches(MatchRule::Prefix, lowercase(name), lowercase(pats[19])));
    } else if starts_with(lowercase(name), lowercase("Microsoft.OutlookForWindows"@)) {
        assert(rule_matches(MatchRule::Prefix, lowercase(name), lowercase(pats[20])));
    } else if starts_with(lowercase(name), lowercase("Microsoft.MSPaint"@)) {
        assert(rule_matches(MatchRule::Prefix, lowercase(name), lowercase(pats[21])));
    } else if starts_with(lowercase(name), lowercase("Microsoft.People"@)) {
        assert(rule_matches(MatchRule::Prefix, lowercase(name), lowercase(pats[22])));
    } else if starts_with(lowercase(name), lowercase("Microsoft.Windows.PeopleExperienceHost"@)) {
        assert(rule_matches(MatchRule::Prefix, lowercase(name), lowercase(pats[23])));
    } else if starts_with(lowercase(name), lowercase("Microsoft.YourPhone"@)) {
        assert(rule_matches(MatchRule::Prefix, lowercase(name), lowercase(pats[24])));
    } else if starts_with(lowercase(name), lowercase("Microsoft.PowerAutomateDesktop"@)) {
        assert(rule_matches(MatchRule::Prefix, lowercase(name), lowercase(pats[25])));
    } else if starts_with(lowercase(name), lowercase("MicrosoftCorporationII.QuickAssist"@)) {
        assert(rule_matches(MatchRule::Prefix, lowercase(name), lowercase(pats[26])));
    } else if starts_with(lowercase(name), lowercase("Microsoft.SkypeApp"@)) {
        assert(rule_matches(MatchRule::Prefix, lowercase(name), lowercase(pats[27])));
    } else if starts_with(lowercase(name), lowercase("Microsoft.MicrosoftStickyNotes"@)) {
        assert(rule_matches(MatchRule::Prefix, lowercase(name), lowercase(pats[28])));
    } else if starts_with(lowercase(name), lowercase("Microsoft.MicrosoftSolitaireCollection"@)) {
        assert(rule_matches(MatchRule::Prefix, lowercase(name), lowercase(pats[29])));
    } else if starts_with(lowercase(name), lowercase("MicrosoftTeams"@)) {
        assert(rule_matches(MatchRule::Prefix, lowercase(name), lowercase(pats[30])));
    } else if starts_with(lowercase(name), lowercase("MSTeams"@)) {
        assert(rule_matches(MatchRule::Prefix, lowercase(name), lowercase(pats[31])));
    } else if starts_with(lowercase(name), lowercase("Microsoft.Windows.Teams"@)) {
        assert(rule_matches(MatchRule::Prefix, lowercase(name), lowercase(pats[32])));
    } else if starts_with(lowercase(name), lowercase("Microsoft.Todos"@)) {
        assert(rule_matches(MatchRule::Prefix, lowercase(name), lowercase(pats[33])));
    } else if starts_with(lowercase(name), lowercase("Microsoft.ZuneVideo"@)) {
        assert(rule_matches(MatchRule::Prefix, lowercase(name), lowercase(pats[34])));
    } else if starts_with(lowercase(name), lowercase("Microsoft.Wallet"@)) {
        assert(rule_matches(MatchRule::Prefix, lowercase(name), lowercase(pats[35])));
    } else if starts_with(lowercase(name), lowercase("Microsoft.GamingApp"@)) {
        assert(rule_matches(MatchRule::Prefix, lowercase(name), lowercase(pats[36])));
    } else if starts_with(lowercase(name), lowercase("Microsoft.XboxApp"@)) {
        assert(rule_matches(MatchRule::Prefix, lowercase(name), lowercase(pats[37])));
    } else if starts_with(lowercase(name), lowercase("Microsoft.XboxGameOverlay"@)) {
        assert(rule_matches(MatchRule::Prefix, lowercase(name), lowercase(pats[38])));
    } else if starts_with(lowercase(name), lowercase("Microsoft.XboxGamingOverlay"@)) {
        assert(rule_matches(MatchRule::Prefix, lowercase(name), lowercase(pats[39])));
    } else if starts_with(lowercase(name), lowercase("Microsoft.XboxSpeechToTextOverlay"@)) {
        assert(rule_matches(MatchRule::Prefix, lowercase(name), lowercase(pats[40])));
    } else if starts_with(lowercase(name), lowercase("Microsoft.Xbox.TCUI"@)) {
        assert(rule_matches(MatchRule::Prefix, lowercase(name), lowercase(pats[41])));
    }
}

} // verus!
