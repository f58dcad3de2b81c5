use win_debloat::helpers::h::{entry_matches_exec, matches_pattern, select_matching, MatchRule};

#[test]
fn glob_forms() {
    assert!(matches_pattern("microsoft.onedrive_1", "microsoft.onedrive*"));
    assert!(!matches_pattern("xmicrosoft.onedrive", "microsoft.onedrive*"));
    assert!(matches_pattern("abc.exe", "*.exe"));
    assert!(!matches_pattern("abc.exe.bak", "*.exe"));
    assert!(matches_pattern("abcdef", "*cd*"));
    assert!(!matches_pattern("abdef", "*cd*"));
    assert!(matches_pattern("abc", "abc"));
    assert!(!matches_pattern("abcd", "abc"));
}

#[test]
fn star_alone_matches_everything() {
    assert!(matches_pattern("", "*"));
    assert!(matches_pattern("anything", "*"));
    assert!(matches_pattern("anything", "**"));
}

#[test]
fn every_name_matches_itself() {
    for n in ["", "*", "**", "*a", "a*", "*a*", "a*b", "x", "*a**"] {
        assert!(matches_pattern(n, n), "{:?}", n);
    }
}

#[test]
fn inner_star_is_literal() {
    assert!(matches_pattern("a*b", "a*b*"));
    assert!(!matches_pattern("axb", "a*b"));
}

#[test]
fn matching_ignores_case() {
    let pats = vec!["microsoft.microsoftskydrive*".to_string(), "microsoft.onedrive*".to_string()];
    assert!(entry_matches_exec("Microsoft.OneDrive_21.0", &pats, MatchRule::Glob));
    assert!(!entry_matches_exec("Microsoft.Edge", &pats, MatchRule::Glob));
    let pre = vec!["Microsoft.BingNews".to_string()];
    assert!(entry_matches_exec("MICROSOFT.BINGNEWS_4.2_x64__8wekyb3d8bbwe", &pre, MatchRule::Prefix));
    assert!(!entry_matches_exec("Microsoft.Bing", &pre, MatchRule::Prefix));
    let uni = vec!["äpfel*".to_string()];
    assert!(entry_matches_exec("ÄPFEL-Paket", &uni, MatchRule::Glob));
}

#[test]
fn selection_flags_each_name() {
    let names = vec!["Microsoft.MicrosoftEdge_44".to_string(), "Other".to_string(), "MICROSOFT.MICROSOFTEDGE_x".to_string()];
    let pats = vec!["microsoft.microsoftedge_*".to_string()];
    let dirs = vec![true, true, true];
    assert_eq!(select_matching(&names, &dirs, &pats, MatchRule::Glob), vec![true, false, true]);
    assert_eq!(select_matching(&names, &dirs, &vec![], MatchRule::Glob), vec![false, false, false]);
}

#[test]
fn glob_selection_takes_directories_only() {
    let names = vec!["microsoft.onedrive_1".to_string(), "microsoft.onedrive.txt".to_string(), "other".to_string()];
    let pats = vec!["microsoft.onedrive*".to_string()];
    assert_eq!(select_matching(&names, &vec![true, false, true], &pats, MatchRule::Glob), vec![true, false, false]);
    // Entries without a flag count as not directories.
    assert_eq!(select_matching(&names, &vec![true], &pats, MatchRule::Glob), vec![true, false, false]);
    // The prefix rule selects files and directories alike.
    let pre = vec!["Microsoft.OneDrive".to_string()];
    assert_eq!(select_matching(&names, &vec![false, false, false], &pre, MatchRule::Prefix), vec![true, true, false]);
}
