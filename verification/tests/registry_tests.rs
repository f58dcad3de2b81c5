use win_debloat::fixes::registry::{
    apply_ai_registry_tweaks, apply_cbs_ai_tweaks, apply_edge_registry_tweaks, apply_gamebar_tweaks,
    apply_privacy_tweaks, apply_task_tweaks, apply_tpm_bypass_tweaks, cbs_ai_packages,
    enable_user_folders, hive_file, hivex_script, multi_sz_bytes_exec, reg_escape_exec, Hive, HiveOp,
};

const HEADER: &str = "Windows Registry Editor Version 5.00\n";

fn s(x: &str) -> String {
    x.to_string()
}

#[test]
fn no_ops_no_script() {
    assert!(hivex_script(&[]).is_none());
}

#[test]
fn delete_key_script() {
    let script = hivex_script(&[HiveOp::DeleteKey(s("Microsoft\\EdgeUpdate"))]).unwrap();
    assert_eq!(script, format!("{HEADER}\n[-\\Microsoft\\EdgeUpdate]\n"));
}

#[test]
fn delete_value_script() {
    let script = hivex_script(&[HiveOp::DeleteValue(s("Run"), s("OneDriveSetup"))]).unwrap();
    assert_eq!(script, format!("{HEADER}\n[\\Run]\n\"OneDriveSetup\"=-\n"));
}

#[test]
fn dword_opens_every_ancestor_key() {
    let script = hivex_script(&[HiveOp::SetDword(s("A\\B\\C"), s("X"), 0xbeef)]).unwrap();
    assert_eq!(
        script,
        format!("{HEADER}\n[\\A]\n\n[\\A\\B]\n\n[\\A\\B\\C]\n\"X\"=dword:0000beef\n\n")
    );
}

#[test]
fn dword_is_eight_lower_hex_digits() {
    for v in [0u32, 1, 0xffff_ffff, 0x1234_abcd] {
        let script = hivex_script(&[HiveOp::SetDword(s("K"), s("V"), v)]).unwrap();
        assert!(script.ends_with(&format!("\"V\"=dword:{:08x}\n\n", v)));
        let hex = &script[script.len() - 10..script.len() - 2];
        assert_eq!(u32::from_str_radix(hex, 16).unwrap(), v);
    }
}

#[test]
fn empty_components_are_skipped() {
    let script = hivex_script(&[HiveOp::SetDword(s("\\A\\\\B\\"), s("X"), 1)]).unwrap();
    assert_eq!(script, format!("{HEADER}\n[\\A]\n\n[\\A\\B]\n\"X\"=dword:00000001\n\n"));
}

#[test]
fn string_values_are_escaped() {
    let script = hivex_script(&[HiveOp::SetString(s("K"), s("Cmd"), s("reg add \"HKLM\\X\""))]).unwrap();
    assert_eq!(script, format!("{HEADER}\n[\\K]\n\"Cmd\"=\"reg add \\\"HKLM\\\\X\\\"\"\n"));
    let e: String = reg_escape_exec("a\\\"b").into_iter().collect();
    assert_eq!(e, "a\\\\\\\"b");
    let e: String = reg_escape_exec("plain").into_iter().collect();
    assert_eq!(e, "plain");
}

#[test]
fn multi_string_bytes_are_utf16le() {
    let v = vec![s("ab"), s("\u{e9}")];
    assert_eq!(multi_sz_bytes_exec(&v), vec![0x61, 0, 0x62, 0, 0, 0, 0xe9, 0, 0, 0, 0, 0]);
    let emoji = vec![s("\u{1f600}")];
    assert_eq!(multi_sz_bytes_exec(&emoji), vec![0x3d, 0xd8, 0x00, 0xde, 0, 0, 0, 0]);
    assert_eq!(multi_sz_bytes_exec(&vec![]), vec![0, 0]);
}

#[test]
fn multi_string_bytes_read_back() {
    let v = vec![s("LaunchTPM"), s("x\u{1f600}y"), s("\u{e9}t\u{e9}")];
    let bytes = multi_sz_bytes_exec(&v);
    let units: Vec<u16> = bytes.chunks(2).map(|p| p[0] as u16 | (p[1] as u16) << 8).collect();
    let back: Vec<String> = units
        .split(|u| *u == 0)
        .take_while(|part| !part.is_empty())
        .map(|part| String::from_utf16(part).unwrap())
        .collect();
    assert_eq!(back, v);
}

#[test]
fn multi_string_script() {
    let script = hivex_script(&[HiveOp::SetMultiString(s("K"), s("M"), vec![s("a")])]).unwrap();
    assert_eq!(script, format!("{HEADER}\n[\\K]\n\"M\"=hex(7):61,00,00,00,00,00\n"));
}

#[test]
fn ops_follow_each_other() {
    let script = hivex_script(&[
        HiveOp::DeleteKey(s("A")),
        HiveOp::SetString(s("B"), s("n"), s("v")),
    ])
    .unwrap();
    assert_eq!(script, format!("{HEADER}\n[-\\A]\n\n[\\B]\n\"n\"=\"v\"\n"));
}

#[test]
fn hive_files() {
    assert_eq!(hive_file("/m", Hive::Software), "/m/Windows/System32/config/SOFTWARE");
    assert_eq!(hive_file("/m", Hive::System), "/m/Windows/System32/config/SYSTEM");
    assert_eq!(hive_file("/m", Hive::Default), "/m/Windows/System32/config/DEFAULT");
    assert_eq!(hive_file("/m/", Hive::NtUser), "/m/Users/Default/NTUSER.DAT");
}

fn shape(edits: &[win_debloat::fixes::registry::HiveEdit]) -> Vec<(String, usize)> {
    edits.iter().map(|e| (e.hive.clone(), e.ops.len())).collect()
}

#[test]
fn edge_tweaks_shape() {
    let e = apply_edge_registry_tweaks("/m");
    assert_eq!(
        shape(&e),
        vec![
            (s("/m/Windows/System32/config/SOFTWARE"), 21),
            (s("/m/Windows/System32/config/SYSTEM"), 4),
            (s("/m/Windows/System32/config/DEFAULT"), 1),
            (s("/m/Users/Default/NTUSER.DAT"), 11),
        ]
    );
    match &e[0].ops[0] {
        HiveOp::DeleteKey(k) => assert_eq!(k, "Microsoft\\EdgeUpdate"),
        other => panic!("{:?}", other),
    }
}

#[test]
fn ai_and_privacy_tweaks_shape() {
    let e = apply_ai_registry_tweaks("/m");
    assert_eq!(e.iter().map(|x| x.ops.len()).collect::<Vec<_>>(), vec![34, 1, 21]);
    match &e[1].ops[0] {
        HiveOp::SetDword(k, n, v) => {
            assert_eq!((k.as_str(), n.as_str(), *v), ("ControlSet001\\Services\\WSAIFabricSvc", "Start", 4));
        }
        other => panic!("{:?}", other),
    }
    let p = apply_privacy_tweaks("/m");
    assert_eq!(p.iter().map(|x| x.ops.len()).collect::<Vec<_>>(), vec![39, 3, 34]);
    match &p[0].ops[6] {
        HiveOp::SetString(_, n, v) => {
            assert_eq!(n, "ConfigureStartPins");
            assert_eq!(v, "{\"pinnedList\": [{}]}");
        }
        other => panic!("{:?}", other),
    }
}

#[test]
fn tpm_bypass_multi_string() {
    let e = apply_tpm_bypass_tweaks("/m");
    assert_eq!(e[0].hive, "/m/Windows/System32/config/SYSTEM");
    assert_eq!(e.iter().map(|x| x.ops.len()).collect::<Vec<_>>(), vec![7, 5, 2, 3]);
    match &e[1].ops[4] {
        HiveOp::SetMultiString(_, n, vals) => {
            assert_eq!(n, "HwReqChkVars");
            assert_eq!(vals, &vec![s("SQ_SecureBootCapable=TRUE"), s("SQ_SecureBootEnabled=TRUE"), s("SQ_TpmVersion=2"), s("SQ_RamMB=8192")]);
        }
        other => panic!("{:?}", other),
    }
}

#[test]
fn task_and_folder_tweaks() {
    let t = apply_task_tweaks("/m");
    assert_eq!(t.len(), 1);
    assert_eq!(t[0].ops.len(), 11);
    let f = enable_user_folders("/m");
    assert_eq!(f[0].ops.len(), 12);
    match (&f[0].ops[0], &f[0].ops[1]) {
        (HiveOp::SetDword(k, n, 0), HiveOp::SetDword(k2, n2, 0)) => {
            assert_eq!(k, "Microsoft\\Windows\\CurrentVersion\\Explorer\\MyComputer\\NameSpace\\{B4BFCC3A-DB2C-424C-B029-7FE99A87C641}");
            assert_eq!(k, k2);
            assert_eq!((n.as_str(), n2.as_str()), ("HideIfEnabled", "HiddenByDefault"));
        }
        other => panic!("{:?}", other),
    }
}

#[test]
fn gamebar_tweaks() {
    let g = apply_gamebar_tweaks("/m");
    assert_eq!(g.iter().map(|x| x.ops.len()).collect::<Vec<_>>(), vec![14, 1]);
    match &g[0].ops[1] {
        HiveOp::SetString(k, n, v) => {
            assert_eq!((k.as_str(), n.as_str(), v.as_str()), ("SOFTWARE\\Classes\\ms-gamebar", "(Default)", "URL:ms-gamebar"));
        }
        other => panic!("{:?}", other),
    }
    match &g[0].ops[7] {
        HiveOp::SetString(k, _, v) => {
            assert_eq!(k, "SOFTWARE\\Classes\\ms-gamebarservices\\shell\\open\\command");
            assert_eq!(v, "%SystemRoot%\\System32\\systray.exe");
        }
        other => panic!("{:?}", other),
    }
}

#[test]
fn cbs_ai_packages_are_case_sensitive_manifests() {
    let names = vec![
        s("Microsoft-Windows-Copilot-Package~31bf3856ad364e35~amd64~~10.0.mum"),
        s("Foo.mum"),
        s("x-AIX.mum.mum"),
        s("Recall.cat"),
        s("copilot.mum"),
        s("CoreAI-Thing.mum"),
    ];
    assert_eq!(
        cbs_ai_packages(&names),
        vec![s("Microsoft-Windows-Copilot-Package~31bf3856ad364e35~amd64~~10.0"), s("x-AIX"), s("CoreAI-Thing")]
    );
    let edit = apply_cbs_ai_tweaks("/m", &names).unwrap();
    assert_eq!(edit.hive, "/m/Windows/System32/config/SOFTWARE");
    assert_eq!(edit.ops.len(), 12);
    match &edit.ops[2] {
        HiveOp::DeleteKey(k) => assert_eq!(
            k,
            "Microsoft\\Windows\\CurrentVersion\\Component Based Servicing\\Packages\\Microsoft-Windows-Copilot-Package~31bf3856ad364e35~amd64~~10.0\\Owners"
        ),
        other => panic!("{:?}", other),
    }
    assert!(apply_cbs_ai_tweaks("/m", &vec![s("Foo.mum")]).is_none());
}
