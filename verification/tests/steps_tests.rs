use win_debloat::fixes::ai::remove_ai;
use win_debloat::fixes::apps::{capability_lang_dir, remove_capabilities, remove_edge, remove_onedrive};
use win_debloat::fixes::appx::remove_appx;
use win_debloat::fixes::cap::{cat_file_name, find_matching_mums, remove_capabilities as cap_remove_capabilities, split_file_name};
use win_debloat::fixes::registry::HiveEdit;
use win_debloat::fixes::{first_action, next_action, Action, Next, Outcome};
use win_debloat::helpers::h::MatchRule;

fn removed(acts: &[Action]) -> Vec<String> {
    acts.iter()
        .filter_map(|a| match a {
            Action::Remove(p) => Some(p.clone()),
            _ => None,
        })
        .collect()
}

#[test]
fn capability_removal_paths() {
    let with = remove_capabilities("/m", "en-US", true);
    let paths = removed(&with);
    assert_eq!(paths.len(), 23);
    assert_eq!(paths[0], "/m/Program Files/Internet Explorer");
    assert_eq!(paths[9], "/m/Windows/System32/en-US/Speech.dll");
    assert_eq!(paths[20], "/m/Windows/System32/en-US/HandwritingRec.mui");
    assert_eq!(paths[22], "/m/Windows/SysWOW64/WindowsPowerShell/v1.0/PowerShell_ISE.exe");
    let without = remove_capabilities("/m", "en-US", false);
    assert_eq!(removed(&without).len(), 11);
    assert_eq!(capability_lang_dir("/m", "de-DE"), "/m/Windows/System32/de-DE");
}

#[test]
fn onedrive_removal_actions() {
    let acts = remove_onedrive("/m");
    assert_eq!(acts.len(), 3);
    assert_eq!(removed(&acts), vec!["/m/Windows/SysWOW64/OneDriveSetup.exe".to_string(), "/m/Users/Default/AppData/Roaming/Microsoft/Windows/Start Menu/Programs/OneDrive.lnk".to_string()]);
    match &acts[2] {
        Action::RemoveMatching { dir, patterns, rule, report } => {
            assert_eq!(dir, "/m/Windows/SystemApps");
            assert_eq!(patterns, &vec!["microsoft.microsoftskydrive*".to_string(), "microsoft.onedrive*".to_string()]);
            assert_eq!(*rule, MatchRule::Glob);
            assert!(!report);
        }
        other => panic!("{:?}", other),
    }
}

#[test]
fn edge_removal_actions() {
    let acts = remove_edge("/m");
    assert_eq!(acts.len(), 17);
    let paths = removed(&acts);
    assert_eq!(paths[0], "/m/Program Files/Microsoft/Edge");
    assert_eq!(paths[7], "/m/Program Files (x86)/Microsoft/EdgeWebView");
    assert_eq!(paths[8], "/m/ProgramData/Microsoft/EdgeUpdate");
    assert_eq!(paths[9], "/m/Windows/System32/Microsoft-Edge-WebView");
    let edits = acts.iter().filter(|a| matches!(a, Action::Edit(_))).count();
    assert_eq!(edits, 4);
    match &acts[11] {
        Action::RemoveMatching { dir, patterns, rule, .. } => {
            assert_eq!(dir, "/m/Windows/System32/Tasks");
            assert_eq!(patterns, &vec!["microsoftedge".to_string()]);
            assert_eq!(*rule, MatchRule::Prefix);
        }
        other => panic!("{:?}", other),
    }
}

#[test]
fn appx_and_ai_removal_actions() {
    let acts = remove_appx("/m");
    assert_eq!(acts.len(), 3);
    match &acts[1] {
        Action::RemoveMatching { dir, patterns, rule, report } => {
            assert_eq!(dir, "/m/Program Files/WindowsApps");
            assert_eq!(patterns.len(), 42);
            assert_eq!(patterns[7], "Microsoft.549981C3F5F10");
            assert_eq!(*rule, MatchRule::Prefix);
            assert!(*report);
        }
        other => panic!("{:?}", other),
    }
    let ai = remove_ai("/m");
    assert_eq!(ai.len(), 7);
    assert!(matches!(&ai[6], Action::CbsAiTweaks(m) if m == "/m"));
    assert!(matches!(&ai[3], Action::Edit(e) if e.ops.len() == 34));
}

#[test]
fn capability_patterns_get_language() {
    let plan = cap_remove_capabilities("/m", "en-US");
    assert_eq!(plan.packages_dir, "/m/Windows/servicing/Packages");
    assert_eq!(plan.patterns.len(), 10);
    assert_eq!(plan.patterns[0], "Microsoft-Windows-InternetExplorer-Optional-Package");
    assert_eq!(plan.patterns[7], "Microsoft-Windows-LanguageFeatures-OCR-en-US-Package");
}

#[test]
fn manifests_selected_by_stem() {
    let plan = cap_remove_capabilities("/m", "en-US");
    let names: Vec<String> = vec![
        "Microsoft-Windows-WordPad-FoD-Package~31bf3856ad364e35~amd64~~10.0.22621.1.mum",
        "Microsoft-Windows-WordPad-FoD-Package~31bf3856ad364e35~amd64~~10.0.22621.1.cat",
        "microsoft-windows-languagefeatures-ocr-en-us-package~31bf.mum",
        "Other-Package.mum",
        "MICROSOFT-WINDOWS-STEPSRECORDER-PACKAGE.MUM",
        ".mum",
    ]
    .into_iter()
    .map(String::from)
    .collect();
    assert_eq!(find_matching_mums(&names, &plan.patterns), vec![true, false, true, false, false, false]);
}

#[test]
fn file_name_parts() {
    let parts = |s: &str| {
        let (stem, ext) = split_file_name(&s.chars().collect::<Vec<_>>());
        (stem.into_iter().collect::<String>(), ext.map(|e| e.into_iter().collect::<String>()))
    };
    assert_eq!(parts("a.b.mum"), ("a.b".to_string(), Some("mum".to_string())));
    assert_eq!(parts(".bashrc"), (".bashrc".to_string(), None));
    assert_eq!(parts("noext"), ("noext".to_string(), None));
    assert_eq!(parts("a."), ("a".to_string(), Some(String::new())));
    assert_eq!(parts(".."), ("..".to_string(), None));
    for n in ["a.b.mum", ".bashrc", "noext", "a.", "x.y"] {
        let p = std::path::Path::new(n);
        let (stem, ext) = parts(n);
        assert_eq!(Some(stem.as_str()), p.file_stem().and_then(|s| s.to_str()));
        assert_eq!(ext.as_deref(), p.extension().and_then(|s| s.to_str()));
    }
}

#[test]
fn catalog_names() {
    assert_eq!(cat_file_name("pkg~1.0.mum"), "pkg~1.0.cat");
    assert_eq!(cat_file_name("a.b.mum"), "a.b.cat");
    let p = std::path::Path::new("dir/x.y.mum");
    assert_eq!(p.with_extension("cat").file_name().unwrap().to_str().unwrap(), cat_file_name("x.y.mum"));
}

#[test]
fn a_failed_edit_stops_the_step() {
    let acts = vec![
        Action::Remove("/m/a".to_string()),
        Action::Edit(HiveEdit { hive: "/m/h".to_string(), ops: vec![] }),
        Action::CbsAiTweaks("/m".to_string()),
    ];
    assert_eq!(first_action(&acts), Next::Run(0));
    assert_eq!(first_action(&vec![]), Next::Finished);
    // A failed removal is only reported.
    assert_eq!(next_action(&acts, 0, Outcome::Failed), Next::Run(1));
    assert_eq!(next_action(&acts, 0, Outcome::Done), Next::Run(1));
    // A failed merge ends the step.
    assert_eq!(next_action(&acts, 1, Outcome::Failed), Next::Stop);
    assert_eq!(next_action(&acts, 1, Outcome::Done), Next::Run(2));
    assert_eq!(next_action(&acts, 2, Outcome::Failed), Next::Stop);
    assert_eq!(next_action(&acts, 2, Outcome::Done), Next::Finished);
}
