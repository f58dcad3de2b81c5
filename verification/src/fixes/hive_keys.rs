//! Which hive each registry key belongs in, and the laws that the tweak
//! sets edit each hive only under its own top-level keys.
use vstd::prelude::*;
use crate::fixes::registry::{
    ai_registry_edits, cbs_key, cbs_ops, cbs_package_ops, edge_registry_edits, folder_key,
    folder_ops, folders_ops, hive_path, privacy_registry_edits, task_ops, tpm_bypass_edits, Hive,
    HiveEditView, HiveOpView,
};
use crate::fixes::tweaks::{
    ai_ntuser_ops, ai_software_ops, ai_system_ops, edge_default_ops, edge_ntuser_ops,
    edge_software_ops, edge_system_ops, gamebar_system_ops, privacy_ntuser_ops,
    privacy_software_ops, privacy_system_ops, tpm_default_ops, tpm_ntuser_ops, tpm_software_ops,
    tpm_system_ops,
};
use crate::text::starts_with;

verus! {

/// The key an operation works on.
pub open spec fn op_key(op: HiveOpView) -> Seq<char> {
    match op {
        HiveOpView::DeleteKey(k) => k,
        HiveOpView::DeleteValue(k, _) => k,
        HiveOpView::SetDword(k, _, _) => k,
        HiveOpView::SetString(k, _, _) => k,
        HiveOpView::SetMultiString(k, _, _) => k,
    }
}

/// The top-level keys (with the separator after them) under which a hive
/// keeps the keys these tweaks touch: `SYSTEM` holds the control sets and
/// `Setup`; `SOFTWARE` holds `Microsoft`, `Policies` and the 32-bit view
/// `WOW6432Node`; a user hive holds `Software`, `Control Panel` and
/// `System`. No top-level key is shared by two of these groups.
pub open spec fn hive_roots(h: Hive) -> Seq<Seq<char>> {
    match h {
        Hive::System => seq!["ControlSet001\\"@, "CurrentControlSet\\"@, "Setup\\"@],
        Hive::Software => seq!["Microsoft\\"@, "Policies\\"@, "WOW6432Node\\"@],
        _ => seq!["Software\\"@, "SOFTWARE\\"@, "Control Panel\\"@, "System\\"@],
    }
}

/// Whether `k` lies under one of the keys `roots`.
pub open spec fn starts_any(k: Seq<char>, roots: Seq<Seq<char>>) -> bool {
    exists|i: int| 0 <= i < roots.len() && starts_with(k, #[trigger] roots[i])
}

/// Whether every operation of `ops` works under a top-level key of hive `h`.
pub open spec fn keys_fit(h: Hive, ops: Seq<HiveOpView>) -> bool {
    forall|j: int| 0 <= j < ops.len() ==> starts_any(op_key(#[trigger] ops[j]), hive_roots(h))
}

/// Whether each edit goes to a hive file of the image at `mount` whose
/// top-level keys hold every key the edit touches.
pub open spec fn edits_fit(mount: Seq<char>, edits: Seq<HiveEditView>) -> bool {
    forall|i: int|
        0 <= i < edits.len() ==> exists|h: Hive|
            #[trigger] edits[i].hive == hive_path(mount, h) && keys_fit(h, edits[i].ops)
}

proof fn lemma_root(k: Seq<char>, roots: Seq<Seq<char>>, i: int)
    requires
        0 <= i < roots.len(),
        starts_with(k, roots[i]),
    ensures
        starts_any(k, roots),
{
}

proof fn lemma_prefix_extends(p: Seq<char>, r: Seq<char>, x: Seq<char>)
    requires
        starts_with(p, r),
    ensures
        starts_with(p + x, r),
{
    assert((p + x).subrange(0, r.len() as int) =~= p.subrange(0, r.len() as int));
}

proof fn lemma_fit_concat(h: Hive, a: Seq<HiveOpView>, b: Seq<HiveOpView>)
    requires
        keys_fit(h, a),
        keys_fit(h, b),
    ensures
        keys_fit(h, a + b),
{
    assert forall|j: int| 0 <= j < (a + b).len() implies starts_any(
        op_key(#[trigger] (a + b)[j]),
        hive_roots(h),
    ) by {
        if j < a.len() {
            assert((a + b)[j] == a[j]);
        } else {
            assert((a + b)[j] == b[j - a.len()]);
        }
    }
}

proof fn lemma_microsoft_key(x: Seq<char>, lit: Seq<char>)
    requires
        starts_with(lit, "Microsoft\\"@),
    ensures
        starts_any(lit + x, hive_roots(Hive::Software)),
{
    lemma_prefix_extends(lit, "Microsoft\\"@, x);
    lemma_root(lit + x, hive_roots(Hive::Software), 0);
}

proof fn lemma_edge_software_ops_fit()
    ensures
        keys_fit(Hive::Software, edge_software_ops()),
{
    let t = edge_software_ops();
    assert forall|j: int| 0 <= j < t.len() implies starts_any(op_key(#[trigger] t[j]), hive_roots(Hive::Software)) by {
        if j == 0 {
            assert(starts_with("Microsoft\\EdgeUpdate"@, "Microsoft\\"@)) by {
                reveal_strlit("Microsoft\\EdgeUpdate");
                reveal_strlit("Microsoft\\");
                assert("Microsoft\\EdgeUpdate"@.subrange(0, 10) =~= "Microsoft\\"@);
            }
            lemma_root("Microsoft\\EdgeUpdate"@, hive_roots(Hive::Software), 0);
        } else if j == 1 {
            assert(starts_with("Microsoft\\Windows\\CurrentVersion\\Uninstall\\Microsoft Edge"@, "Microsoft\\"@)) by {
                reveal_strlit("Microsoft\\Windows\\CurrentVersion\\Uninstall\\Microsoft Edge");
                reveal_strlit("Microsoft\\");
                assert("Microsoft\\Windows\\CurrentVersion\\Uninstall\\Microsoft Edge"@.subrange(0, 10) =~= "Microsoft\\"@);
            }
            lemma_root("Microsoft\\Windows\\CurrentVersion\\Uninstall\\Microsoft Edge"@, hive_roots(Hive::Software), 0);
        } else if j == 2 {
            assert(starts_with("Microsoft\\Active Setup\\Installed Components\\{9459C573-B17A-45AE-9F64-1857B5D58CEE}"@, "Microsoft\\"@)) by {
                reveal_strlit("Microsoft\\Active Setup\\Installed Components\\{9459C573-B17A-45AE-9F64-1857B5D58CEE}");
                reveal_strlit("Microsoft\\");
                assert("Microsoft\\Active Setup\\Installed Components\\{9459C573-B17A-45AE-9F64-1857B5D58CEE}"@.subrange(0, 10) =~= "Microsoft\\"@);
            }
            lemma_root("Microsoft\\Active Setup\\Installed Components\\{9459C573-B17A-45AE-9F64-1857B5D58CEE}"@, hive_roots(Hive::Software), 0);
        } else if j == 3 {
            assert(starts_with("WOW6432Node\\Microsoft\\Edge"@, "WOW6432Node\\"@)) by {
                reveal_strlit("WOW6432Node\\Microsoft\\Edge");
                reveal_strlit("WOW6432Node\\");
                assert("WOW6432Node\\Microsoft\\Edge"@.subrange(0, 12) =~= "WOW6432Node\\"@);
            }
            lemma_root("WOW6432Node\\Microsoft\\Edge"@, hive_roots(Hive::Software), 2);
        } else if j == 4 {
            assert(starts_with("WOW6432Node\\Microsoft\\EdgeUpdate"@, "WOW6432Node\\"@)) by {
                reveal_strlit("WOW6432Node\\Microsoft\\EdgeUpdate");
                reveal_strlit("WOW6432Node\\");
                assert("WOW6432Node\\Microsoft\\EdgeUpdate"@.subrange(0, 12) =~= "WOW6432Node\\"@);
            }
            lemma_root("WOW6432Node\\Microsoft\\EdgeUpdate"@, hive_roots(Hive::Software), 2);
        } else if j == 5 {
            assert(starts_with("WOW6432Node\\Microsoft\\Windows\\CurrentVersion\\Uninstall\\Microsoft Edge"@, "WOW6432Node\\"@)) by {
                reveal_strlit("WOW6432Node\\Microsoft\\Windows\\CurrentVersion\\Uninstall\\Microsoft Edge");
                reveal_strlit("WOW6432Node\\");
                assert("WOW6432Node\\Microsoft\\Windows\\CurrentVersion\\Uninstall\\Microsoft Edge"@.subrange(0, 12) =~= "WOW6432Node\\"@);
            }
            lemma_root("WOW6432Node\\Microsoft\\Windows\\CurrentVersion\\Uninstall\\Microsoft Edge"@, hive_roots(Hive::Software), 2);
        } else if j == 6 {
            assert(starts_with("WOW6432Node\\Microsoft\\Windows\\CurrentVersion\\Uninstall\\Microsoft Edge Update"@, "WOW6432Node\\"@)) by {
                reveal_strlit("WOW6432Node\\Microsoft\\Windows\\CurrentVersion\\Uninstall\\Microsoft Edge Update");
                reveal_strlit("WOW6432Node\\");
                assert("WOW6432Node\\Microsoft\\Windows\\CurrentVersion\\Uninstall\\Microsoft Edge Update"@.subrange(0, 12) =~= "WOW6432Node\\"@);
            }
            lemma_root("WOW6432Node\\Microsoft\\Windows\\CurrentVersion\\Uninstall\\Microsoft Edge Update"@, hive_roots(Hive::Software), 2);
        } else if j == 7 {
            assert(starts_with("Microsoft\\MicrosoftEdge\\Main"@, "Microsoft\\"@)) by {
                reveal_strlit("Microsoft\\MicrosoftEdge\\Main");
                reveal_strlit("Microsoft\\");
                assert("Microsoft\\MicrosoftEdge\\Main"@.subrange(0, 10) =~= "Microsoft\\"@);
            }
            lemma_root("Microsoft\\MicrosoftEdge\\Main"@, hive_roots(Hive::Software), 0);
        } else if j == 8 {
            assert(starts_with("Policies\\Microsoft\\MicrosoftEdge\\Main"@, "Policies\\"@)) by {
                reveal_strlit("Policies\\Microsoft\\MicrosoftEdge\\Main");
                reveal_strlit("Policies\\");
                assert("Policies\\Microsoft\\MicrosoftEdge\\Main"@.subrange(0, 9) =~= "Policies\\"@);
            }
            lemma_root("Policies\\Microsoft\\MicrosoftEdge\\Main"@, hive_roots(Hive::Software), 1);
        } else if j == 9 {
            assert(starts_with("Microsoft\\MicrosoftEdge\\TabPreloader"@, "Microsoft\\"@)) by {
                reveal_strlit("Microsoft\\MicrosoftEdge\\TabPreloader");
                reveal_strlit("Microsoft\\");
                assert("Microsoft\\MicrosoftEdge\\TabPreloader"@.subrange(0, 10) =~= "Microsoft\\"@);
            }
            lemma_root("Microsoft\\MicrosoftEdge\\TabPreloader"@, hive_roots(Hive::Software), 0);
        } else if j == 10 {
            assert(starts_with("Policies\\Microsoft\\MicrosoftEdge\\TabPreloader"@, "Policies\\"@)) by {
                reveal_strlit("Policies\\Microsoft\\MicrosoftEdge\\TabPreloader");
                reveal_strlit("Policies\\");
                assert("Policies\\Microsoft\\MicrosoftEdge\\TabPreloader"@.subrange(0, 9) =~= "Policies\\"@);
            }
            lemma_root("Policies\\Microsoft\\MicrosoftEdge\\TabPreloader"@, hive_roots(Hive::Software), 1);
        } else if j == 11 {
            assert(starts_with("Policies\\Microsoft\\EdgeUpdate"@, "Policies\\"@)) by {
                reveal_strlit("Policies\\Microsoft\\EdgeUpdate");
                reveal_strlit("Policies\\");
                assert("Policies\\Microsoft\\EdgeUpdate"@.subrange(0, 9) =~= "Policies\\"@);
            }
            lemma_root("Policies\\Microsoft\\EdgeUpdate"@, hive_roots(Hive::Software), 1);
        } else if j == 12 {
            assert(starts_with("Microsoft\\EdgeUpdate"@, "Microsoft\\"@)) by {
                reveal_strlit("Microsoft\\EdgeUpdate");
                reveal_strlit("Microsoft\\");
                assert("Microsoft\\EdgeUpdate"@.subrange(0, 10) =~= "Microsoft\\"@);
            }
            lemma_root("Microsoft\\EdgeUpdate"@, hive_roots(Hive::Software), 0);
        } else if j == 13 {
            assert(starts_with("Microsoft\\EdgeUpdate"@, "Microsoft\\"@)) by {
                reveal_strlit("Microsoft\\EdgeUpdate");
                reveal_strlit("Microsoft\\");
                assert("Microsoft\\EdgeUpdate"@.subrange(0, 10) =~= "Microsoft\\"@);
            }
            lemma_root("Microsoft\\EdgeUpdate"@, hive_roots(Hive::Software), 0);
        } else if j == 14 {
            assert(starts_with("Microsoft\\EdgeUpdate"@, "Microsoft\\"@)) by {
                reveal_strlit("Microsoft\\EdgeUpdate");
                reveal_strlit("Microsoft\\");
                assert("Microsoft\\EdgeUpdate"@.subrange(0, 10) =~= "Microsoft\\"@);
            }
            lemma_root("Microsoft\\EdgeUpdate"@, hive_roots(Hive::Software), 0);
        } else if j == 15 {
            assert(starts_with("Policies\\Microsoft\\EdgeUpdate"@, "Policies\\"@)) by {
                reveal_strlit("Policies\\Microsoft\\EdgeUpdate");
                reveal_strlit("Policies\\");
                assert("Policies\\Microsoft\\EdgeUpdate"@.subrange(0, 9) =~= "Policies\\"@);
            }
            lemma_root("Policies\\Microsoft\\EdgeUpdate"@, hive_roots(Hive::Software), 1);
        } else if j == 16 {
            assert(starts_with("Policies\\Microsoft\\EdgeUpdate"@, "Policies\\"@)) by {
                reveal_strlit("Policies\\Microsoft\\EdgeUpdate");
                reveal_strlit("Policies\\");
                assert("Policies\\Microsoft\\EdgeUpdate"@.subrange(0, 9) =~= "Policies\\"@);
            }
            lemma_root("Policies\\Microsoft\\EdgeUpdate"@, hive_roots(Hive::Software), 1);
        } else if j == 17 {
            assert(starts_with("Policies\\Microsoft\\EdgeUpdate"@, "Policies\\"@)) by {
                reveal_strlit("Policies\\Microsoft\\EdgeUpdate");
                reveal_strlit("Policies\\");
                assert("Policies\\Microsoft\\EdgeUpdate"@.subrange(0, 9) =~= "Policies\\"@);
            }
            lemma_root("Policies\\Microsoft\\EdgeUpdate"@, hive_roots(Hive::Software), 1);
        } else if j == 18 {
            assert(starts_with("WOW6432Node\\Microsoft\\EdgeUpdate"@, "WOW6432Node\\"@)) by {
                reveal_strlit("WOW6432Node\\Microsoft\\EdgeUpdate");
                reveal_strlit("WOW6432Node\\");
                assert("WOW6432Node\\Microsoft\\EdgeUpdate"@.subrange(0, 12) =~= "WOW6432Node\\"@);
            }
            lemma_root("WOW6432Node\\Microsoft\\EdgeUpdate"@, hive_roots(Hive::Software), 2);
        } else if j == 19 {
            assert(starts_with("WOW6432Node\\Microsoft\\EdgeUpdate"@, "WOW6432Node\\"@)) by {
                reveal_strlit("WOW6432Node\\Microsoft\\EdgeUpdate");
                reveal_strlit("WOW6432Node\\");
                assert("WOW6432Node\\Microsoft\\EdgeUpdate"@.subrange(0, 12) =~= "WOW6432Node\\"@);
            }
            lemma_root("WOW6432Node\\Microsoft\\EdgeUpdate"@, hive_roots(Hive::Software), 2);
        } else if j == 20 {
            assert(starts_with("WOW6432Node\\Microsoft\\EdgeUpdate"@, "WOW6432Node\\"@)) by {
                reveal_strlit("WOW6432Node\\Microsoft\\EdgeUpdate");
                reveal_strlit("WOW6432Node\\");
                assert("WOW6432Node\\Microsoft\\EdgeUpdate"@.subrange(0, 12) =~= "WOW6432Node\\"@);
            }
            lemma_root("WOW6432Node\\Microsoft\\EdgeUpdate"@, hive_roots(Hive::Software), 2);
        }
    }
}

proof fn lemma_edge_system_ops_fit()
    ensures
        keys_fit(Hive::System, edge_system_ops()),
{
    let t = edge_system_ops();
    assert forall|j: int| 0 <= j < t.len() implies starts_any(op_key(#[trigger] t[j]), hive_roots(Hive::System)) by {
        if j == 0 {
            assert(starts_with("CurrentControlSet\\Services\\edgeupdate"@, "CurrentControlSet\\"@)) by {
                reveal_strlit("CurrentControlSet\\Services\\edgeupdate");
                reveal_strlit("CurrentControlSet\\");
                assert("CurrentControlSet\\Services\\edgeupdate"@.subrange(0, 18) =~= "CurrentControlSet\\"@);
            }
            lemma_root("CurrentControlSet\\Services\\edgeupdate"@, hive_roots(Hive::System), 1);
        } else if j == 1 {
            assert(starts_with("CurrentControlSet\\Services\\edgeupdatem"@, "CurrentControlSet\\"@)) by {
                reveal_strlit("CurrentControlSet\\Services\\edgeupdatem");
                reveal_strlit("CurrentControlSet\\");
                assert("CurrentControlSet\\Services\\edgeupdatem"@.subrange(0, 18) =~= "CurrentControlSet\\"@);
            }
            lemma_root("CurrentControlSet\\Services\\edgeupdatem"@, hive_roots(Hive::System), 1);
        } else if j == 2 {
            assert(starts_with("ControlSet001\\Services\\edgeupdate"@, "ControlSet001\\"@)) by {
                reveal_strlit("ControlSet001\\Services\\edgeupdate");
                reveal_strlit("ControlSet001\\");
                assert("ControlSet001\\Services\\edgeupdate"@.subrange(0, 14) =~= "ControlSet001\\"@);
            }
            lemma_root("ControlSet001\\Services\\edgeupdate"@, hive_roots(Hive::System), 0);
        } else if j == 3 {
            assert(starts_with("ControlSet001\\Services\\edgeupdatem"@, "ControlSet001\\"@)) by {
                reveal_strlit("ControlSet001\\Services\\edgeupdatem");
                reveal_strlit("ControlSet001\\");
                assert("ControlSet001\\Services\\edgeupdatem"@.subrange(0, 14) =~= "ControlSet001\\"@);
            }
            lemma_root("ControlSet001\\Services\\edgeupdatem"@, hive_roots(Hive::System), 0);
        }
    }
}

proof fn lemma_edge_default_ops_fit()
    ensures
        keys_fit(Hive::Default, edge_default_ops()),
{
    let t = edge_default_ops();
    assert forall|j: int| 0 <= j < t.len() implies starts_any(op_key(#[trigger] t[j]), hive_roots(Hive::Default)) by {
        if j == 0 {
            assert(starts_with("Software\\Microsoft\\EdgeUpdate"@, "Software\\"@)) by {
                reveal_strlit("Software\\Microsoft\\EdgeUpdate");
                reveal_strlit("Software\\");
                assert("Software\\Microsoft\\EdgeUpdate"@.subrange(0, 9) =~= "Software\\"@);
            }
            lemma_root("Software\\Microsoft\\EdgeUpdate"@, hive_roots(Hive::Default), 0);
        }
    }
}

proof fn lemma_edge_ntuser_ops_fit()
    ensures
        keys_fit(Hive::NtUser, edge_ntuser_ops()),
{
    let t = edge_ntuser_ops();
    assert forall|j: int| 0 <= j < t.len() implies starts_any(op_key(#[trigger] t[j]), hive_roots(Hive::NtUser)) by {
        if j == 0 {
            assert(starts_with("Software\\Microsoft\\EdgeUpdate"@, "Software\\"@)) by {
                reveal_strlit("Software\\Microsoft\\EdgeUpdate");
                reveal_strlit("Software\\");
                assert("Software\\Microsoft\\EdgeUpdate"@.subrange(0, 9) =~= "Software\\"@);
            }
            lemma_root("Software\\Microsoft\\EdgeUpdate"@, hive_roots(Hive::NtUser), 0);
        } else if j == 1 {
            assert(starts_with("Software\\Microsoft\\MicrosoftEdge\\Main"@, "Software\\"@)) by {
                reveal_strlit("Software\\Microsoft\\MicrosoftEdge\\Main");
                reveal_strlit("Software\\");
                assert("Software\\Microsoft\\MicrosoftEdge\\Main"@.subrange(0, 9) =~= "Software\\"@);
            }
            lemma_root("Software\\Microsoft\\MicrosoftEdge\\Main"@, hive_roots(Hive::NtUser), 0);
        } else if j == 2 {
            assert(starts_with("Software\\Policies\\Microsoft\\MicrosoftEdge\\Main"@, "Software\\"@)) by {
                reveal_strlit("Software\\Policies\\Microsoft\\MicrosoftEdge\\Main");
                reveal_strlit("Software\\");
                assert("Software\\Policies\\Microsoft\\MicrosoftEdge\\Main"@.subrange(0, 9) =~= "Software\\"@);
            }
            lemma_root("Software\\Policies\\Microsoft\\MicrosoftEdge\\Main"@, hive_roots(Hive::NtUser), 0);
        } else if j == 3 {
            assert(starts_with("Software\\Microsoft\\MicrosoftEdge\\TabPreloader"@, "Software\\"@)) by {
                reveal_strlit("Software\\Microsoft\\MicrosoftEdge\\TabPreloader");
                reveal_strlit("Software\\");
                assert("Software\\Microsoft\\MicrosoftEdge\\TabPreloader"@.subrange(0, 9) =~= "Software\\"@);
            }
            lemma_root("Software\\Microsoft\\MicrosoftEdge\\TabPreloader"@, hive_roots(Hive::NtUser), 0);
        } else if j == 4 {
            assert(starts_with("Software\\Policies\\Microsoft\\MicrosoftEdge\\TabPreloader"@, "Software\\"@)) by {
                reveal_strlit("Software\\Policies\\Microsoft\\MicrosoftEdge\\TabPreloader");
                reveal_strlit("Software\\");
                assert("Software\\Policies\\Microsoft\\MicrosoftEdge\\TabPreloader"@.subrange(0, 9) =~= "Software\\"@);
            }
            lemma_root("Software\\Policies\\Microsoft\\MicrosoftEdge\\TabPreloader"@, hive_roots(Hive::NtUser), 0);
        } else if j == 5 {
            assert(starts_with("Software\\Microsoft\\EdgeUpdate"@, "Software\\"@)) by {
                reveal_strlit("Software\\Microsoft\\EdgeUpdate");
                reveal_strlit("Software\\");
                assert("Software\\Microsoft\\EdgeUpdate"@.subrange(0, 9) =~= "Software\\"@);
            }
            lemma_root("Software\\Microsoft\\EdgeUpdate"@, hive_roots(Hive::NtUser), 0);
        } else if j == 6 {
            assert(starts_with("Software\\Microsoft\\EdgeUpdate"@, "Software\\"@)) by {
                reveal_strlit("Software\\Microsoft\\EdgeUpdate");
                reveal_strlit("Software\\");
                assert("Software\\Microsoft\\EdgeUpdate"@.subrange(0, 9) =~= "Software\\"@);
            }
            lemma_root("Software\\Microsoft\\EdgeUpdate"@, hive_roots(Hive::NtUser), 0);
        } else if j == 7 {
            assert(starts_with("Software\\Microsoft\\EdgeUpdate"@, "Software\\"@)) by {
                reveal_strlit("Software\\Microsoft\\EdgeUpdate");
                reveal_strlit("Software\\");
                assert("Software\\Microsoft\\EdgeUpdate"@.subrange(0, 9) =~= "Software\\"@);
            }
            lemma_root("Software\\Microsoft\\EdgeUpdate"@, hive_roots(Hive::NtUser), 0);
        } else if j == 8 {
            assert(starts_with("Software\\Policies\\Microsoft\\EdgeUpdate"@, "Software\\"@)) by {
                reveal_strlit("Software\\Policies\\Microsoft\\EdgeUpdate");
                reveal_strlit("Software\\");
                assert("Software\\Policies\\Microsoft\\EdgeUpdate"@.subrange(0, 9) =~= "Software\\"@);
            }
            lemma_root("Software\\Policies\\Microsoft\\EdgeUpdate"@, hive_roots(Hive::NtUser), 0);
        } else if j == 9 {
            assert(starts_with("Software\\Policies\\Microsoft\\EdgeUpdate"@, "Software\\"@)) by {
                reveal_strlit("Software\\Policies\\Microsoft\\EdgeUpdate");
                reveal_strlit("Software\\");
                assert("Software\\Policies\\Microsoft\\EdgeUpdate"@.subrange(0, 9) =~= "Software\\"@);
            }
            lemma_root("Software\\Policies\\Microsoft\\EdgeUpdate"@, hive_roots(Hive::NtUser), 0);
        } else if j == 10 {
            assert(starts_with("Software\\Policies\\Microsoft\\EdgeUpdate"@, "Software\\"@)) by {
                reveal_strlit("Software\\Policies\\Microsoft\\EdgeUpdate");
                reveal_strlit("Software\\");
                assert("Software\\Policies\\Microsoft\\EdgeUpdate"@.subrange(0, 9) =~= "Software\\"@);
            }
            lemma_root("Software\\Policies\\Microsoft\\EdgeUpdate"@, hive_roots(Hive::NtUser), 0);
        }
    }
}

proof fn lemma_ai_software_ops_fit()
    ensures
        keys_fit(Hive::Software, ai_software_ops()),
{
    let t = ai_software_ops();
    assert forall|j: int| 0 <= j < t.len() implies starts_any(op_key(#[trigger] t[j]), hive_roots(Hive::Software)) by {
        if j == 0 {
            assert(starts_with("Policies\\Microsoft\\Windows\\Explorer"@, "Policies\\"@)) by {
                reveal_strlit("Policies\\Microsoft\\Windows\\Explorer");
                reveal_strlit("Policies\\");
                assert("Policies\\Microsoft\\Windows\\Explorer"@.subrange(0, 9) =~= "Policies\\"@);
            }
            lemma_root("Policies\\Microsoft\\Windows\\Explorer"@, hive_roots(Hive::Software), 1);
        } else if j == 1 {
            assert(starts_with("Policies\\WindowsNotepad"@, "Policies\\"@)) by {
                reveal_strlit("Policies\\WindowsNotepad");
                reveal_strlit("Policies\\");
                assert("Policies\\WindowsNotepad"@.subrange(0, 9) =~= "Policies\\"@);
            }
            lemma_root("Policies\\WindowsNotepad"@, hive_roots(Hive::Software), 1);
        } else if j == 2 {
            assert(starts_with("Microsoft\\Windows\\CurrentVersion\\Policies\\Paint"@, "Microsoft\\"@)) by {
                reveal_strlit("Microsoft\\Windows\\CurrentVersion\\Policies\\Paint");
                reveal_strlit("Microsoft\\");
                assert("Microsoft\\Windows\\CurrentVersion\\Policies\\Paint"@.subrange(0, 10) =~= "Microsoft\\"@);
            }
            lemma_root("Microsoft\\Windows\\CurrentVersion\\Policies\\Paint"@, hive_roots(Hive::Software), 0);
        } else if j == 3 {
            assert(starts_with("Microsoft\\Windows\\CurrentVersion\\Policies\\Paint"@, "Microsoft\\"@)) by {
                reveal_strlit("Microsoft\\Windows\\CurrentVersion\\Policies\\Paint");
                reveal_strlit("Microsoft\\");
                assert("Microsoft\\Windows\\CurrentVersion\\Policies\\Paint"@.subrange(0, 10) =~= "Microsoft\\"@);
            }
            lemma_root("Microsoft\\Windows\\CurrentVersion\\Policies\\Paint"@, hive_roots(Hive::Software), 0);
        } else if j == 4 {
            assert(starts_with("Microsoft\\Windows\\CurrentVersion\\Policies\\Paint"@, "Microsoft\\"@)) by {
                reveal_strlit("Microsoft\\Windows\\CurrentVersion\\Policies\\Paint");
                reveal_strlit("Microsoft\\");
                assert("Microsoft\\Windows\\CurrentVersion\\Policies\\Paint"@.subrange(0, 10) =~= "Microsoft\\"@);
            }
            lemma_root("Microsoft\\Windows\\CurrentVersion\\Policies\\Paint"@, hive_roots(Hive::Software), 0);
        } else if j == 5 {
            assert(starts_with("Microsoft\\Windows\\CurrentVersion\\Policies\\Paint"@, "Microsoft\\"@)) by {
                reveal_strlit("Microsoft\\Windows\\CurrentVersion\\Policies\\Paint");
                reveal_strlit("Microsoft\\");
                assert("Microsoft\\Windows\\CurrentVersion\\Policies\\Paint"@.subrange(0, 10) =~= "Microsoft\\"@);
            }
            lemma_root("Microsoft\\Windows\\CurrentVersion\\Policies\\Paint"@, hive_roots(Hive::Software), 0);
        } else if j == 6 {
            assert(starts_with("Microsoft\\Windows\\CurrentVersion\\Policies\\Paint"@, "Microsoft\\"@)) by {
                reveal_strlit("Microsoft\\Windows\\CurrentVersion\\Policies\\Paint");
                reveal_strlit("Microsoft\\");
                assert("Microsoft\\Windows\\CurrentVersion\\Policies\\Paint"@.subrange(0, 10) =~= "Microsoft\\"@);
            }
            lemma_root("Microsoft\\Windows\\CurrentVersion\\Policies\\Paint"@, hive_roots(Hive::Software), 0);
        } else if j == 7 {
            assert(starts_with("Policies\\Microsoft\\Windows\\AppPrivacy"@, "Policies\\"@)) by {
                reveal_strlit("Policies\\Microsoft\\Windows\\AppPrivacy");
                reveal_strlit("Policies\\");
                assert("Policies\\Microsoft\\Windows\\AppPrivacy"@.subrange(0, 9) =~= "Policies\\"@);
            }
            lemma_root("Policies\\Microsoft\\Windows\\AppPrivacy"@, hive_roots(Hive::Software), 1);
        } else if j == 8 {
            assert(starts_with("Policies\\Microsoft\\Windows\\AppPrivacy"@, "Policies\\"@)) by {
                reveal_strlit("Policies\\Microsoft\\Windows\\AppPrivacy");
                reveal_strlit("Policies\\");
                assert("Policies\\Microsoft\\Windows\\AppPrivacy"@.subrange(0, 9) =~= "Policies\\"@);
            }
            lemma_root("Policies\\Microsoft\\Windows\\AppPrivacy"@, hive_roots(Hive::Software), 1);
        } else if j == 9 {
            assert(starts_with("Microsoft\\Windows\\CurrentVersion\\CapabilityAccessManager\\ConsentStore\\generativeAI"@, "Microsoft\\"@)) by {
                reveal_strlit("Microsoft\\Windows\\CurrentVersion\\CapabilityAccessManager\\ConsentStore\\generativeAI");
                reveal_strlit("Microsoft\\");
                assert("Microsoft\\Windows\\CurrentVersion\\CapabilityAccessManager\\ConsentStore\\generativeAI"@.subrange(0, 10) =~= "Microsoft\\"@);
            }
            lemma_root("Microsoft\\Windows\\CurrentVersion\\CapabilityAccessManager\\ConsentStore\\generativeAI"@, hive_roots(Hive::Software), 0);
        } else if j == 10 {
            assert(starts_with("Microsoft\\Windows\\CurrentVersion\\CapabilityAccessManager\\ConsentStore\\systemAIModels"@, "Microsoft\\"@)) by {
                reveal_strlit("Microsoft\\Windows\\CurrentVersion\\CapabilityAccessManager\\ConsentStore\\systemAIModels");
                reveal_strlit("Microsoft\\");
                assert("Microsoft\\Windows\\CurrentVersion\\CapabilityAccessManager\\ConsentStore\\systemAIModels"@.subrange(0, 10) =~= "Microsoft\\"@);
            }
            lemma_root("Microsoft\\Windows\\CurrentVersion\\CapabilityAccessManager\\ConsentStore\\systemAIModels"@, hive_roots(Hive::Software), 0);
        } else if j == 11 {
            assert(starts_with("Policies\\Microsoft\\Edge"@, "Policies\\"@)) by {
                reveal_strlit("Policies\\Microsoft\\Edge");
                reveal_strlit("Policies\\");
                assert("Policies\\Microsoft\\Edge"@.subrange(0, 9) =~= "Policies\\"@);
            }
            lemma_root("Policies\\Microsoft\\Edge"@, hive_roots(Hive::Software), 1);
        } else if j == 12 {
            assert(starts_with("Policies\\Microsoft\\Edge"@, "Policies\\"@)) by {
                reveal_strlit("Policies\\Microsoft\\Edge");
                reveal_strlit("Policies\\");
                assert("Policies\\Microsoft\\Edge"@.subrange(0, 9) =~= "Policies\\"@);
            }
            lemma_root("Policies\\Microsoft\\Edge"@, hive_roots(Hive::Software), 1);
        } else if j == 13 {
            assert(starts_with("Policies\\Microsoft\\Edge"@, "Policies\\"@)) by {
                reveal_strlit("Policies\\Microsoft\\Edge");
                reveal_strlit("Policies\\");
                assert("Policies\\Microsoft\\Edge"@.subrange(0, 9) =~= "Policies\\"@);
            }
            lemma_root("Policies\\Microsoft\\Edge"@, hive_roots(Hive::Software), 1);
        } else if j == 14 {
            assert(starts_with("Policies\\Microsoft\\Edge"@, "Policies\\"@)) by {
                reveal_strlit("Policies\\Microsoft\\Edge");
                reveal_strlit("Policies\\");
                assert("Policies\\Microsoft\\Edge"@.subrange(0, 9) =~= "Policies\\"@);
            }
            lemma_root("Policies\\Microsoft\\Edge"@, hive_roots(Hive::Software), 1);
        } else if j == 15 {
            assert(starts_with("Policies\\Microsoft\\Edge"@, "Policies\\"@)) by {
                reveal_strlit("Policies\\Microsoft\\Edge");
                reveal_strlit("Policies\\");
                assert("Policies\\Microsoft\\Edge"@.subrange(0, 9) =~= "Policies\\"@);
            }
            lemma_root("Policies\\Microsoft\\Edge"@, hive_roots(Hive::Software), 1);
        } else if j == 16 {
            assert(starts_with("Policies\\Microsoft\\Edge"@, "Policies\\"@)) by {
                reveal_strlit("Policies\\Microsoft\\Edge");
                reveal_strlit("Policies\\");
                assert("Policies\\Microsoft\\Edge"@.subrange(0, 9) =~= "Policies\\"@);
            }
            lemma_root("Policies\\Microsoft\\Edge"@, hive_roots(Hive::Software), 1);
        } else if j == 17 {
            assert(starts_with("Policies\\Microsoft\\Edge"@, "Policies\\"@)) by {
                reveal_strlit("Policies\\Microsoft\\Edge");
                reveal_strlit("Policies\\");
                assert("Policies\\Microsoft\\Edge"@.subrange(0, 9) =~= "Policies\\"@);
            }
            lemma_root("Policies\\Microsoft\\Edge"@, hive_roots(Hive::Software), 1);
        } else if j == 18 {
            assert(starts_with("Policies\\Microsoft\\Windows\\WindowsCopilot"@, "Policies\\"@)) by {
                reveal_strlit("Policies\\Microsoft\\Windows\\WindowsCopilot");
                reveal_strlit("Policies\\");
                assert("Policies\\Microsoft\\Windows\\WindowsCopilot"@.subrange(0, 9) =~= "Policies\\"@);
            }
            lemma_root("Policies\\Microsoft\\Windows\\WindowsCopilot"@, hive_roots(Hive::Software), 1);
        } else if j == 19 {
            assert(starts_with("Policies\\Microsoft\\Windows\\WindowsAI"@, "Policies\\"@)) by {
                reveal_strlit("Policies\\Microsoft\\Windows\\WindowsAI");
                reveal_strlit("Policies\\");
                assert("Policies\\Microsoft\\Windows\\WindowsAI"@.subrange(0, 9) =~= "Policies\\"@);
            }
            lemma_root("Policies\\Microsoft\\Windows\\WindowsAI"@, hive_roots(Hive::Software), 1);
        } else if j == 20 {
            assert(starts_with("Policies\\Microsoft\\Windows\\WindowsAI"@, "Policies\\"@)) by {
                reveal_strlit("Policies\\Microsoft\\Windows\\WindowsAI");
                reveal_strlit("Policies\\");
                assert("Policies\\Microsoft\\Windows\\WindowsAI"@.subrange(0, 9) =~= "Policies\\"@);
            }
            lemma_root("Policies\\Microsoft\\Windows\\WindowsAI"@, hive_roots(Hive::Software), 1);
        } else if j == 21 {
            assert(starts_with("Policies\\Microsoft\\Windows\\WindowsAI"@, "Policies\\"@)) by {
                reveal_strlit("Policies\\Microsoft\\Windows\\WindowsAI");
                reveal_strlit("Policies\\");
                assert("Policies\\Microsoft\\Windows\\WindowsAI"@.subrange(0, 9) =~= "Policies\\"@);
            }
            lemma_root("Policies\\Microsoft\\Windows\\WindowsAI"@, hive_roots(Hive::Software), 1);
        } else if j == 22 {
            assert(starts_with("Policies\\Microsoft\\Windows\\WindowsAI"@, "Policies\\"@)) by {
                reveal_strlit("Policies\\Microsoft\\Windows\\WindowsAI");
                reveal_strlit("Policies\\");
                assert("Policies\\Microsoft\\Windows\\WindowsAI"@.subrange(0, 9) =~= "Policies\\"@);
            }
            lemma_root("Policies\\Microsoft\\Windows\\WindowsAI"@, hive_roots(Hive::Software), 1);
        } else if j == 23 {
            assert(starts_with("Policies\\Microsoft\\Windows\\WindowsAI"@, "Policies\\"@)) by {
                reveal_strlit("Policies\\Microsoft\\Windows\\WindowsAI");
                reveal_strlit("Policies\\");
                assert("Policies\\Microsoft\\Windows\\WindowsAI"@.subrange(0, 9) =~= "Policies\\"@);
            }
            lemma_root("Policies\\Microsoft\\Windows\\WindowsAI"@, hive_roots(Hive::Software), 1);
        } else if j == 24 {
            assert(starts_with("Microsoft\\Windows\\Shell\\Copilot"@, "Microsoft\\"@)) by {
                reveal_strlit("Microsoft\\Windows\\Shell\\Copilot");
                reveal_strlit("Microsoft\\");
                assert("Microsoft\\Windows\\Shell\\Copilot"@.subrange(0, 10) =~= "Microsoft\\"@);
            }
            lemma_root("Microsoft\\Windows\\Shell\\Copilot"@, hive_roots(Hive::Software), 0);
        } else if j == 25 {
            assert(starts_with("Microsoft\\Windows\\Shell\\Copilot"@, "Microsoft\\"@)) by {
                reveal_strlit("Microsoft\\Windows\\Shell\\Copilot");
                reveal_strlit("Microsoft\\");
                assert("Microsoft\\Windows\\Shell\\Copilot"@.subrange(0, 10) =~= "Microsoft\\"@);
            }
            lemma_root("Microsoft\\Windows\\Shell\\Copilot"@, hive_roots(Hive::Software), 0);
        } else if j == 26 {
            assert(starts_with("Microsoft\\Windows\\CurrentVersion\\Policies\\Explorer"@, "Microsoft\\"@)) by {
                reveal_strlit("Microsoft\\Windows\\CurrentVersion\\Policies\\Explorer");
                reveal_strlit("Microsoft\\");
                assert("Microsoft\\Windows\\CurrentVersion\\Policies\\Explorer"@.subrange(0, 10) =~= "Microsoft\\"@);
            }
            lemma_root("Microsoft\\Windows\\CurrentVersion\\Policies\\Explorer"@, hive_roots(Hive::Software), 0);
        } else if j == 27 {
            assert(starts_with("Microsoft\\Windows\\CurrentVersion\\Notifications\\Settings"@, "Microsoft\\"@)) by {
                reveal_strlit("Microsoft\\Windows\\CurrentVersion\\Notifications\\Settings");
                reveal_strlit("Microsoft\\");
                assert("Microsoft\\Windows\\CurrentVersion\\Notifications\\Settings"@.subrange(0, 10) =~= "Microsoft\\"@);
            }
            lemma_root("Microsoft\\Windows\\CurrentVersion\\Notifications\\Settings"@, hive_roots(Hive::Software), 0);
        } else if j == 28 {
            assert(starts_with("Policies\\Microsoft\\Windows\\Appx\\RemoveDefaultMicrosoftStorePackages"@, "Policies\\"@)) by {
                reveal_strlit("Policies\\Microsoft\\Windows\\Appx\\RemoveDefaultMicrosoftStorePackages");
                reveal_strlit("Policies\\");
                assert("Policies\\Microsoft\\Windows\\Appx\\RemoveDefaultMicrosoftStorePackages"@.subrange(0, 9) =~= "Policies\\"@);
            }
            lemma_root("Policies\\Microsoft\\Windows\\Appx\\RemoveDefaultMicrosoftStorePackages"@, hive_roots(Hive::Software), 1);
        } else if j == 29 {
            assert(starts_with("Policies\\Microsoft\\Windows\\Appx\\RemoveDefaultMicrosoftStorePackages\\Microsoft.Copilot_8wekyb3d8bbwe"@, "Policies\\"@)) by {
                reveal_strlit("Policies\\Microsoft\\Windows\\Appx\\RemoveDefaultMicrosoftStorePackages\\Microsoft.Copilot_8wekyb3d8bbwe");
                reveal_strlit("Policies\\");
                assert("Policies\\Microsoft\\Windows\\Appx\\RemoveDefaultMicrosoftStorePackages\\Microsoft.Copilot_8wekyb3d8bbwe"@.subrange(0, 9) =~= "Policies\\"@);
            }
            lemma_root("Policies\\Microsoft\\Windows\\Appx\\RemoveDefaultMicrosoftStorePackages\\Microsoft.Copilot_8wekyb3d8bbwe"@, hive_roots(Hive::Software), 1);
        } else if j == 30 {
            assert(starts_with("Microsoft\\Windows\\CurrentVersion\\RunOnce"@, "Microsoft\\"@)) by {
                reveal_strlit("Microsoft\\Windows\\CurrentVersion\\RunOnce");
                reveal_strlit("Microsoft\\");
                assert("Microsoft\\Windows\\CurrentVersion\\RunOnce"@.subrange(0, 10) =~= "Microsoft\\"@);
            }
            lemma_root("Microsoft\\Windows\\CurrentVersion\\RunOnce"@, hive_roots(Hive::Software), 0);
        } else if j == 31 {
            assert(starts_with("Microsoft\\Windows\\CurrentVersion\\RunOnce"@, "Microsoft\\"@)) by {
                reveal_strlit("Microsoft\\Windows\\CurrentVersion\\RunOnce");
                reveal_strlit("Microsoft\\");
                assert("Microsoft\\Windows\\CurrentVersion\\RunOnce"@.subrange(0, 10) =~= "Microsoft\\"@);
            }
            lemma_root("Microsoft\\Windows\\CurrentVersion\\RunOnce"@, hive_roots(Hive::Software), 0);
        } else if j == 32 {
            assert(starts_with("Microsoft\\Windows\\CurrentVersion\\RunOnce"@, "Microsoft\\"@)) by {
                reveal_strlit("Microsoft\\Windows\\CurrentVersion\\RunOnce");
                reveal_strlit("Microsoft\\");
                assert("Microsoft\\Windows\\CurrentVersion\\RunOnce"@.subrange(0, 10) =~= "Microsoft\\"@);
            }
            lemma_root("Microsoft\\Windows\\CurrentVersion\\RunOnce"@, hive_roots(Hive::Software), 0);
        } else if j == 33 {
            assert(starts_with("Microsoft\\Windows NT\\CurrentVersion\\Schedule\\TaskCache\\Tree\\Microsoft\\Windows\\WindowsAI"@, "Microsoft\\"@)) by {
                reveal_strlit("Microsoft\\Windows NT\\CurrentVersion\\Schedule\\TaskCache\\Tree\\Microsoft\\Windows\\WindowsAI");
                reveal_strlit("Microsoft\\");
                assert("Microsoft\\Windows NT\\CurrentVersion\\Schedule\\TaskCache\\Tree\\Microsoft\\Windows\\WindowsAI"@.subrange(0, 10) =~= "Microsoft\\"@);
            }
            lemma_root("Microsoft\\Windows NT\\CurrentVersion\\Schedule\\TaskCache\\Tree\\Microsoft\\Windows\\WindowsAI"@, hive_roots(Hive::Software), 0);
        }
    }
}

proof fn lemma_ai_system_ops_fit()
    ensures
        keys_fit(Hive::System, ai_system_ops()),
{
    let t = ai_system_ops();
    assert forall|j: int| 0 <= j < t.len() implies starts_any(op_key(#[trigger] t[j]), hive_roots(Hive::System)) by {
        if j == 0 {
            assert(starts_with("ControlSet001\\Services\\WSAIFabricSvc"@, "ControlSet001\\"@)) by {
                reveal_strlit("ControlSet001\\Services\\WSAIFabricSvc");
                reveal_strlit("ControlSet001\\");
                assert("ControlSet001\\Services\\WSAIFabricSvc"@.subrange(0, 14) =~= "ControlSet001\\"@);
            }
            lemma_root("ControlSet001\\Services\\WSAIFabricSvc"@, hive_roots(Hive::System), 0);
        }
    }
}

proof fn lemma_ai_ntuser_ops_fit()
    ensures
        keys_fit(Hive::NtUser, ai_ntuser_ops()),
{
    let t = ai_ntuser_ops();
    assert forall|j: int| 0 <= j < t.len() implies starts_any(op_key(#[trigger] t[j]), hive_roots(Hive::NtUser)) by {
        if j == 0 {
            assert(starts_with("Software\\Microsoft\\Windows\\CurrentVersion\\Explorer\\Advanced"@, "Software\\"@)) by {
                reveal_strlit("Software\\Microsoft\\Windows\\CurrentVersion\\Explorer\\Advanced");
                reveal_strlit("Software\\");
                assert("Software\\Microsoft\\Windows\\CurrentVersion\\Explorer\\Advanced"@.subrange(0, 9) =~= "Software\\"@);
            }
            lemma_root("Software\\Microsoft\\Windows\\CurrentVersion\\Explorer\\Advanced"@, hive_roots(Hive::NtUser), 0);
        } else if j == 1 {
            assert(starts_with("Software\\Microsoft\\Windows\\CurrentVersion\\Explorer\\Advanced"@, "Software\\"@)) by {
                reveal_strlit("Software\\Microsoft\\Windows\\CurrentVersion\\Explorer\\Advanced");
                reveal_strlit("Software\\");
                assert("Software\\Microsoft\\Windows\\CurrentVersion\\Explorer\\Advanced"@.subrange(0, 9) =~= "Software\\"@);
            }
            lemma_root("Software\\Microsoft\\Windows\\CurrentVersion\\Explorer\\Advanced"@, hive_roots(Hive::NtUser), 0);
        } else if j == 2 {
            assert(starts_with("Software\\Microsoft\\Windows\\CurrentVersion\\Explorer\\Taskband\\AuxilliaryPins"@, "Software\\"@)) by {
                reveal_strlit("Software\\Microsoft\\Windows\\CurrentVersion\\Explorer\\Taskband\\AuxilliaryPins");
                reveal_strlit("Software\\");
                assert("Software\\Microsoft\\Windows\\CurrentVersion\\Explorer\\Taskband\\AuxilliaryPins"@.subrange(0, 9) =~= "Software\\"@);
            }
            lemma_root("Software\\Microsoft\\Windows\\CurrentVersion\\Explorer\\Taskband\\AuxilliaryPins"@, hive_roots(Hive::NtUser), 0);
        } else if j == 3 {
            assert(starts_with("Software\\Microsoft\\Windows\\CurrentVersion\\Explorer\\Taskband\\AuxilliaryPins"@, "Software\\"@)) by {
                reveal_strlit("Software\\Microsoft\\Windows\\CurrentVersion\\Explorer\\Taskband\\AuxilliaryPins");
                reveal_strlit("Software\\");
                assert("Software\\Microsoft\\Windows\\CurrentVersion\\Explorer\\Taskband\\AuxilliaryPins"@.subrange(0, 9) =~= "Software\\"@);
            }
            lemma_root("Software\\Microsoft\\Windows\\CurrentVersion\\Explorer\\Taskband\\AuxilliaryPins"@, hive_roots(Hive::NtUser), 0);
        } else if j == 4 {
            assert(starts_with("Software\\Microsoft\\Windows\\CurrentVersion\\WindowsCopilot"@, "Software\\"@)) by {
                reveal_strlit("Software\\Microsoft\\Windows\\CurrentVersion\\WindowsCopilot");
                reveal_strlit("Software\\");
                assert("Software\\Microsoft\\Windows\\CurrentVersion\\WindowsCopilot"@.subrange(0, 9) =~= "Software\\"@);
            }
            lemma_root("Software\\Microsoft\\Windows\\CurrentVersion\\WindowsCopilot"@, hive_roots(Hive::NtUser), 0);
        } else if j == 5 {
            assert(starts_with("Software\\Microsoft\\Windows\\CurrentVersion\\Explorer\\AutoInstalledPWAs"@, "Software\\"@)) by {
                reveal_strlit("Software\\Microsoft\\Windows\\CurrentVersion\\Explorer\\AutoInstalledPWAs");
                reveal_strlit("Software\\");
                assert("Software\\Microsoft\\Windows\\CurrentVersion\\Explorer\\AutoInstalledPWAs"@.subrange(0, 9) =~= "Software\\"@);
            }
            lemma_root("Software\\Microsoft\\Windows\\CurrentVersion\\Explorer\\AutoInstalledPWAs"@, hive_roots(Hive::NtUser), 0);
        } else if j == 6 {
            assert(starts_with("Software\\Microsoft\\Windows\\CurrentVersion\\BackgroundAccessApplications\\Microsoft.Copilot_8wekyb3d8bbwe"@, "Software\\"@)) by {
                reveal_strlit("Software\\Microsoft\\Windows\\CurrentVersion\\BackgroundAccessApplications\\Microsoft.Copilot_8wekyb3d8bbwe");
                reveal_strlit("Software\\");
                assert("Software\\Microsoft\\Windows\\CurrentVersion\\BackgroundAccessApplications\\Microsoft.Copilot_8wekyb3d8bbwe"@.subrange(0, 9) =~= "Software\\"@);
            }
            lemma_root("Software\\Microsoft\\Windows\\CurrentVersion\\BackgroundAccessApplications\\Microsoft.Copilot_8wekyb3d8bbwe"@, hive_roots(Hive::NtUser), 0);
        } else if j == 7 {
            assert(starts_with("Software\\Microsoft\\Windows\\CurrentVersion\\BackgroundAccessApplications\\Microsoft.Copilot_8wekyb3d8bbwe"@, "Software\\"@)) by {
                reveal_strlit("Software\\Microsoft\\Windows\\CurrentVersion\\BackgroundAccessApplications\\Microsoft.Copilot_8wekyb3d8bbwe");
                reveal_strlit("Software\\");
                assert("Software\\Microsoft\\Windows\\CurrentVersion\\BackgroundAccessApplications\\Microsoft.Copilot_8wekyb3d8bbwe"@.subrange(0, 9) =~= "Software\\"@);
            }
            lemma_root("Software\\Microsoft\\Windows\\CurrentVersion\\BackgroundAccessApplications\\Microsoft.Copilot_8wekyb3d8bbwe"@, hive_roots(Hive::NtUser), 0);
        } else if j == 8 {
            assert(starts_with("SOFTWARE\\Microsoft\\Windows\\CurrentVersion\\Shell Extensions\\Blocked"@, "SOFTWARE\\"@)) by {
                reveal_strlit("SOFTWARE\\Microsoft\\Windows\\CurrentVersion\\Shell Extensions\\Blocked");
                reveal_strlit("SOFTWARE\\");
                assert("SOFTWARE\\Microsoft\\Windows\\CurrentVersion\\Shell Extensions\\Blocked"@.subrange(0, 9) =~= "SOFTWARE\\"@);
            }
            lemma_root("SOFTWARE\\Microsoft\\Windows\\CurrentVersion\\Shell Extensions\\Blocked"@, hive_roots(Hive::NtUser), 1);
        } else if j == 9 {
            assert(starts_with("Software\\Policies\\Microsoft\\Windows\\WindowsCopilot"@, "Software\\"@)) by {
                reveal_strlit("Software\\Policies\\Microsoft\\Windows\\WindowsCopilot");
                reveal_strlit("Software\\");
                assert("Software\\Policies\\Microsoft\\Windows\\WindowsCopilot"@.subrange(0, 9) =~= "Software\\"@);
            }
            lemma_root("Software\\Policies\\Microsoft\\Windows\\WindowsCopilot"@, hive_roots(Hive::NtUser), 0);
        } else if j == 10 {
            assert(starts_with("Software\\Policies\\Microsoft\\Windows\\WindowsAI"@, "Software\\"@)) by {
                reveal_strlit("Software\\Policies\\Microsoft\\Windows\\WindowsAI");
                reveal_strlit("Software\\");
                assert("Software\\Policies\\Microsoft\\Windows\\WindowsAI"@.subrange(0, 9) =~= "Software\\"@);
            }
            lemma_root("Software\\Policies\\Microsoft\\Windows\\WindowsAI"@, hive_roots(Hive::NtUser), 0);
        } else if j == 11 {
            assert(starts_with("Software\\Policies\\Microsoft\\Windows\\WindowsAI"@, "Software\\"@)) by {
                reveal_strlit("Software\\Policies\\Microsoft\\Windows\\WindowsAI");
                reveal_strlit("Software\\");
                assert("Software\\Policies\\Microsoft\\Windows\\WindowsAI"@.subrange(0, 9) =~= "Software\\"@);
            }
            lemma_root("Software\\Policies\\Microsoft\\Windows\\WindowsAI"@, hive_roots(Hive::NtUser), 0);
        } else if j == 12 {
            assert(starts_with("Software\\Policies\\Microsoft\\Windows\\WindowsAI"@, "Software\\"@)) by {
                reveal_strlit("Software\\Policies\\Microsoft\\Windows\\WindowsAI");
                reveal_strlit("Software\\");
                assert("Software\\Policies\\Microsoft\\Windows\\WindowsAI"@.subrange(0, 9) =~= "Software\\"@);
            }
            lemma_root("Software\\Policies\\Microsoft\\Windows\\WindowsAI"@, hive_roots(Hive::NtUser), 0);
        } else if j == 13 {
            assert(starts_with("Software\\Policies\\Microsoft\\Windows\\WindowsAI"@, "Software\\"@)) by {
                reveal_strlit("Software\\Policies\\Microsoft\\Windows\\WindowsAI");
                reveal_strlit("Software\\");
                assert("Software\\Policies\\Microsoft\\Windows\\WindowsAI"@.subrange(0, 9) =~= "Software\\"@);
            }
            lemma_root("Software\\Policies\\Microsoft\\Windows\\WindowsAI"@, hive_roots(Hive::NtUser), 0);
        } else if j == 14 {
            assert(starts_with("Software\\Policies\\Microsoft\\Windows\\WindowsAI"@, "Software\\"@)) by {
                reveal_strlit("Software\\Policies\\Microsoft\\Windows\\WindowsAI");
                reveal_strlit("Software\\");
                assert("Software\\Policies\\Microsoft\\Windows\\WindowsAI"@.subrange(0, 9) =~= "Software\\"@);
            }
            lemma_root("Software\\Policies\\Microsoft\\Windows\\WindowsAI"@, hive_roots(Hive::NtUser), 0);
        } else if j == 15 {
            assert(starts_with("Software\\Microsoft\\Windows\\Shell\\Copilot"@, "Software\\"@)) by {
                reveal_strlit("Software\\Microsoft\\Windows\\Shell\\Copilot");
                reveal_strlit("Software\\");
                assert("Software\\Microsoft\\Windows\\Shell\\Copilot"@.subrange(0, 9) =~= "Software\\"@);
            }
            lemma_root("Software\\Microsoft\\Windows\\Shell\\Copilot"@, hive_roots(Hive::NtUser), 0);
        } else if j == 16 {
            assert(starts_with("Software\\Microsoft\\Windows\\Shell\\Copilot"@, "Software\\"@)) by {
                reveal_strlit("Software\\Microsoft\\Windows\\Shell\\Copilot");
                reveal_strlit("Software\\");
                assert("Software\\Microsoft\\Windows\\Shell\\Copilot"@.subrange(0, 9) =~= "Software\\"@);
            }
            lemma_root("Software\\Microsoft\\Windows\\Shell\\Copilot"@, hive_roots(Hive::NtUser), 0);
        } else if j == 17 {
            assert(starts_with("Software\\Microsoft\\Office\\16.0\\Word\\Options"@, "Software\\"@)) by {
                reveal_strlit("Software\\Microsoft\\Office\\16.0\\Word\\Options");
                reveal_strlit("Software\\");
                assert("Software\\Microsoft\\Office\\16.0\\Word\\Options"@.subrange(0, 9) =~= "Software\\"@);
            }
            lemma_root("Software\\Microsoft\\Office\\16.0\\Word\\Options"@, hive_roots(Hive::NtUser), 0);
        } else if j == 18 {
            assert(starts_with("Software\\Microsoft\\Office\\16.0\\Excel\\Options"@, "Software\\"@)) by {
                reveal_strlit("Software\\Microsoft\\Office\\16.0\\Excel\\Options");
                reveal_strlit("Software\\");
                assert("Software\\Microsoft\\Office\\16.0\\Excel\\Options"@.subrange(0, 9) =~= "Software\\"@);
            }
            lemma_root("Software\\Microsoft\\Office\\16.0\\Excel\\Options"@, hive_roots(Hive::NtUser), 0);
        } else if j == 19 {
            assert(starts_with("Software\\Microsoft\\Office\\16.0\\OneNote\\Options\\Copilot"@, "Software\\"@)) by {
                reveal_strlit("Software\\Microsoft\\Office\\16.0\\OneNote\\Options\\Copilot");
                reveal_strlit("Software\\");
                assert("Software\\Microsoft\\Office\\16.0\\OneNote\\Options\\Copilot"@.subrange(0, 9) =~= "Software\\"@);
            }
            lemma_root("Software\\Microsoft\\Office\\16.0\\OneNote\\Options\\Copilot"@, hive_roots(Hive::NtUser), 0);
        } else if j == 20 {
            assert(starts_with("Software\\Policies\\Microsoft\\office\\16.0\\common\\privacy"@, "Software\\"@)) by {
                reveal_strlit("Software\\Policies\\Microsoft\\office\\16.0\\common\\privacy");
                reveal_strlit("Software\\");
                assert("Software\\Policies\\Microsoft\\office\\16.0\\common\\privacy"@.subrange(0, 9) =~= "Software\\"@);
            }
            lemma_root("Software\\Policies\\Microsoft\\office\\16.0\\common\\privacy"@, hive_roots(Hive::NtUser), 0);
        }
    }
}

proof fn lemma_privacy_software_ops_fit()
    ensures
        keys_fit(Hive::Software, privacy_software_ops()),
{
    let t = privacy_software_ops();
    assert forall|j: int| 0 <= j < t.len() implies starts_any(op_key(#[trigger] t[j]), hive_roots(Hive::Software)) by {
        if j == 0 {
            assert(starts_with("Policies\\Microsoft\\Windows\\DataCollection"@, "Policies\\"@)) by {
                reveal_strlit("Policies\\Microsoft\\Windows\\DataCollection");
                reveal_strlit("Policies\\");
                assert("Policies\\Microsoft\\Windows\\DataCollection"@.subrange(0, 9) =~= "Policies\\"@);
            }
            lemma_root("Policies\\Microsoft\\Windows\\DataCollection"@, hive_roots(Hive::Software), 1);
        } else if j == 1 {
            assert(starts_with("Microsoft\\Windows\\CurrentVersion\\ContentDeliveryManager"@, "Microsoft\\"@)) by {
                reveal_strlit("Microsoft\\Windows\\CurrentVersion\\ContentDeliveryManager");
                reveal_strlit("Microsoft\\");
                assert("Microsoft\\Windows\\CurrentVersion\\ContentDeliveryManager"@.subrange(0, 10) =~= "Microsoft\\"@);
            }
            lemma_root("Microsoft\\Windows\\CurrentVersion\\ContentDeliveryManager"@, hive_roots(Hive::Software), 0);
        } else if j == 2 {
            assert(starts_with("Policies\\Microsoft\\Windows\\CloudContent"@, "Policies\\"@)) by {
                reveal_strlit("Policies\\Microsoft\\Windows\\CloudContent");
                reveal_strlit("Policies\\");
                assert("Policies\\Microsoft\\Windows\\CloudContent"@.subrange(0, 9) =~= "Policies\\"@);
            }
            lemma_root("Policies\\Microsoft\\Windows\\CloudContent"@, hive_roots(Hive::Software), 1);
        } else if j == 3 {
            assert(starts_with("Policies\\Microsoft\\Windows\\CloudContent"@, "Policies\\"@)) by {
                reveal_strlit("Policies\\Microsoft\\Windows\\CloudContent");
                reveal_strlit("Policies\\");
                assert("Policies\\Microsoft\\Windows\\CloudContent"@.subrange(0, 9) =~= "Policies\\"@);
            }
            lemma_root("Policies\\Microsoft\\Windows\\CloudContent"@, hive_roots(Hive::Software), 1);
        } else if j == 4 {
            assert(starts_with("Policies\\Microsoft\\Windows\\CloudContent"@, "Policies\\"@)) by {
                reveal_strlit("Policies\\Microsoft\\Windows\\CloudContent");
                reveal_strlit("Policies\\");
                assert("Policies\\Microsoft\\Windows\\CloudContent"@.subrange(0, 9) =~= "Policies\\"@);
            }
            lemma_root("Policies\\Microsoft\\Windows\\CloudContent"@, hive_roots(Hive::Software), 1);
        } else if j == 5 {
            assert(starts_with("Policies\\Microsoft\\Windows\\CloudContent"@, "Policies\\"@)) by {
                reveal_strlit("Policies\\Microsoft\\Windows\\CloudContent");
                reveal_strlit("Policies\\");
                assert("Policies\\Microsoft\\Windows\\CloudContent"@.subrange(0, 9) =~= "Policies\\"@);
            }
            lemma_root("Policies\\Microsoft\\Windows\\CloudContent"@, hive_roots(Hive::Software), 1);
        } else if j == 6 {
            assert(starts_with("Microsoft\\PolicyManager\\current\\device\\Start"@, "Microsoft\\"@)) by {
                reveal_strlit("Microsoft\\PolicyManager\\current\\device\\Start");
                reveal_strlit("Microsoft\\");
                assert("Microsoft\\PolicyManager\\current\\device\\Start"@.subrange(0, 10) =~= "Microsoft\\"@);
            }
            lemma_root("Microsoft\\PolicyManager\\current\\device\\Start"@, hive_roots(Hive::Software), 0);
        } else if j == 7 {
            assert(starts_with("Policies\\Microsoft\\Windows\\AdvertisingInfo"@, "Policies\\"@)) by {
                reveal_strlit("Policies\\Microsoft\\Windows\\AdvertisingInfo");
                reveal_strlit("Policies\\");
                assert("Policies\\Microsoft\\Windows\\AdvertisingInfo"@.subrange(0, 9) =~= "Policies\\"@);
            }
            lemma_root("Policies\\Microsoft\\Windows\\AdvertisingInfo"@, hive_roots(Hive::Software), 1);
        } else if j == 8 {
            assert(starts_with("Microsoft\\Windows\\CurrentVersion\\Policies\\Explorer"@, "Microsoft\\"@)) by {
                reveal_strlit("Microsoft\\Windows\\CurrentVersion\\Policies\\Explorer");
                reveal_strlit("Microsoft\\");
                assert("Microsoft\\Windows\\CurrentVersion\\Policies\\Explorer"@.subrange(0, 10) =~= "Microsoft\\"@);
            }
            lemma_root("Microsoft\\Windows\\CurrentVersion\\Policies\\Explorer"@, hive_roots(Hive::Software), 0);
        } else if j == 9 {
            assert(starts_with("Microsoft\\Windows\\CurrentVersion\\Policies\\Explorer"@, "Microsoft\\"@)) by {
                reveal_strlit("Microsoft\\Windows\\CurrentVersion\\Policies\\Explorer");
                reveal_strlit("Microsoft\\");
                assert("Microsoft\\Windows\\CurrentVersion\\Policies\\Explorer"@.subrange(0, 10) =~= "Microsoft\\"@);
            }
            lemma_root("Microsoft\\Windows\\CurrentVersion\\Policies\\Explorer"@, hive_roots(Hive::Software), 0);
        } else if j == 10 {
            assert(starts_with("Policies\\Microsoft\\Windows\\Windows Feeds"@, "Policies\\"@)) by {
                reveal_strlit("Policies\\Microsoft\\Windows\\Windows Feeds");
                reveal_strlit("Policies\\");
                assert("Policies\\Microsoft\\Windows\\Windows Feeds"@.subrange(0, 9) =~= "Policies\\"@);
            }
            lemma_root("Policies\\Microsoft\\Windows\\Windows Feeds"@, hive_roots(Hive::Software), 1);
        } else if j == 11 {
            assert(starts_with("Policies\\Microsoft\\Windows\\Windows Search"@, "Policies\\"@)) by {
                reveal_strlit("Policies\\Microsoft\\Windows\\Windows Search");
                reveal_strlit("Policies\\");
                assert("Policies\\Microsoft\\Windows\\Windows Search"@.subrange(0, 9) =~= "Policies\\"@);
            }
            lemma_root("Policies\\Microsoft\\Windows\\Windows Search"@, hive_roots(Hive::Software), 1);
        } else if j == 12 {
            assert(starts_with("Policies\\Microsoft\\MRT"@, "Policies\\"@)) by {
                reveal_strlit("Policies\\Microsoft\\MRT");
                reveal_strlit("Policies\\");
                assert("Policies\\Microsoft\\MRT"@.subrange(0, 9) =~= "Policies\\"@);
            }
            lemma_root("Policies\\Microsoft\\MRT"@, hive_roots(Hive::Software), 1);
        } else if j == 13 {
            assert(starts_with("Policies\\Microsoft\\Teams"@, "Policies\\"@)) by {
                reveal_strlit("Policies\\Microsoft\\Teams");
                reveal_strlit("Policies\\");
                assert("Policies\\Microsoft\\Teams"@.subrange(0, 9) =~= "Policies\\"@);
            }
            lemma_root("Policies\\Microsoft\\Teams"@, hive_roots(Hive::Software), 1);
        } else if j == 14 {
            assert(starts_with("Policies\\Microsoft\\Windows\\Windows Mail"@, "Policies\\"@)) by {
                reveal_strlit("Policies\\Microsoft\\Windows\\Windows Mail");
                reveal_strlit("Policies\\");
                assert("Policies\\Microsoft\\Windows\\Windows Mail"@.subrange(0, 9) =~= "Policies\\"@);
            }
            lemma_root("Policies\\Microsoft\\Windows\\Windows Mail"@, hive_roots(Hive::Software), 1);
        } else if j == 15 {
            assert(starts_with("Microsoft\\BitLocker"@, "Microsoft\\"@)) by {
                reveal_strlit("Microsoft\\BitLocker");
                reveal_strlit("Microsoft\\");
                assert("Microsoft\\BitLocker"@.subrange(0, 10) =~= "Microsoft\\"@);
            }
            lemma_root("Microsoft\\BitLocker"@, hive_roots(Hive::Software), 0);
        } else if j == 16 {
            assert(starts_with("Policies\\Microsoft\\Windows\\OneDrive"@, "Policies\\"@)) by {
                reveal_strlit("Policies\\Microsoft\\Windows\\OneDrive");
                reveal_strlit("Policies\\");
                assert("Policies\\Microsoft\\Windows\\OneDrive"@.subrange(0, 9) =~= "Policies\\"@);
            }
            lemma_root("Policies\\Microsoft\\Windows\\OneDrive"@, hive_roots(Hive::Software), 1);
        } else if j == 17 {
            assert(starts_with("Policies\\Microsoft\\Windows\\OneDrive"@, "Policies\\"@)) by {
                reveal_strlit("Policies\\Microsoft\\Windows\\OneDrive");
                reveal_strlit("Policies\\");
                assert("Policies\\Microsoft\\Windows\\OneDrive"@.subrange(0, 9) =~= "Policies\\"@);
            }
            lemma_root("Policies\\Microsoft\\Windows\\OneDrive"@, hive_roots(Hive::Software), 1);
        } else if j == 18 {
            assert(starts_with("Policies\\Microsoft\\OneDrive"@, "Policies\\"@)) by {
                reveal_strlit("Policies\\Microsoft\\OneDrive");
                reveal_strlit("Policies\\");
                assert("Policies\\Microsoft\\OneDrive"@.subrange(0, 9) =~= "Policies\\"@);
            }
            lemma_root("Policies\\Microsoft\\OneDrive"@, hive_roots(Hive::Software), 1);
        } else if j == 19 {
            assert(starts_with("Policies\\Microsoft\\Windows\\GameDVR"@, "Policies\\"@)) by {
                reveal_strlit("Policies\\Microsoft\\Windows\\GameDVR");
                reveal_strlit("Policies\\");
                assert("Policies\\Microsoft\\Windows\\GameDVR"@.subrange(0, 9) =~= "Policies\\"@);
            }
            lemma_root("Policies\\Microsoft\\Windows\\GameDVR"@, hive_roots(Hive::Software), 1);
        } else if j == 20 {
            assert(starts_with("Microsoft\\WindowsUpdate\\Orchestrator\\UScheduler_Oobe\\DevHomeUpdate"@, "Microsoft\\"@)) by {
                reveal_strlit("Microsoft\\WindowsUpdate\\Orchestrator\\UScheduler_Oobe\\DevHomeUpdate");
                reveal_strlit("Microsoft\\");
                assert("Microsoft\\WindowsUpdate\\Orchestrator\\UScheduler_Oobe\\DevHomeUpdate"@.subrange(0, 10) =~= "Microsoft\\"@);
            }
            lemma_root("Microsoft\\WindowsUpdate\\Orchestrator\\UScheduler_Oobe\\DevHomeUpdate"@, hive_roots(Hive::Software), 0);
        } else if j == 21 {
            assert(starts_with("Microsoft\\Windows\\CurrentVersion\\WindowsUpdate\\Orchestrator\\UScheduler\\DevHomeUpdate"@, "Microsoft\\"@)) by {
                reveal_strlit("Microsoft\\Windows\\CurrentVersion\\WindowsUpdate\\Orchestrator\\UScheduler\\DevHomeUpdate");
                reveal_strlit("Microsoft\\");
                assert("Microsoft\\Windows\\CurrentVersion\\WindowsUpdate\\Orchestrator\\UScheduler\\DevHomeUpdate"@.subrange(0, 10) =~= "Microsoft\\"@);
            }
            lemma_root("Microsoft\\Windows\\CurrentVersion\\WindowsUpdate\\Orchestrator\\UScheduler\\DevHomeUpdate"@, hive_roots(Hive::Software), 0);
        } else if j == 22 {
            assert(starts_with("Microsoft\\WindowsUpdate\\Orchestrator\\UScheduler_Oobe\\OutlookUpdate"@, "Microsoft\\"@)) by {
                reveal_strlit("Microsoft\\WindowsUpdate\\Orchestrator\\UScheduler_Oobe\\OutlookUpdate");
                reveal_strlit("Microsoft\\");
                assert("Microsoft\\WindowsUpdate\\Orchestrator\\UScheduler_Oobe\\OutlookUpdate"@.subrange(0, 10) =~= "Microsoft\\"@);
            }
            lemma_root("Microsoft\\WindowsUpdate\\Orchestrator\\UScheduler_Oobe\\OutlookUpdate"@, hive_roots(Hive::Software), 0);
        } else if j == 23 {
            assert(starts_with("Microsoft\\Windows\\CurrentVersion\\WindowsUpdate\\Orchestrator\\UScheduler\\OutlookUpdate"@, "Microsoft\\"@)) by {
                reveal_strlit("Microsoft\\Windows\\CurrentVersion\\WindowsUpdate\\Orchestrator\\UScheduler\\OutlookUpdate");
                reveal_strlit("Microsoft\\");
                assert("Microsoft\\Windows\\CurrentVersion\\WindowsUpdate\\Orchestrator\\UScheduler\\OutlookUpdate"@.subrange(0, 10) =~= "Microsoft\\"@);
            }
            lemma_root("Microsoft\\Windows\\CurrentVersion\\WindowsUpdate\\Orchestrator\\UScheduler\\OutlookUpdate"@, hive_roots(Hive::Software), 0);
        } else if j == 24 {
            assert(starts_with("Microsoft\\Windows\\CurrentVersion\\Communications"@, "Microsoft\\"@)) by {
                reveal_strlit("Microsoft\\Windows\\CurrentVersion\\Communications");
                reveal_strlit("Microsoft\\");
                assert("Microsoft\\Windows\\CurrentVersion\\Communications"@.subrange(0, 10) =~= "Microsoft\\"@);
            }
            lemma_root("Microsoft\\Windows\\CurrentVersion\\Communications"@, hive_roots(Hive::Software), 0);
        } else if j == 25 {
            assert(starts_with("Policies\\Microsoft\\Windows\\Windows Chat"@, "Policies\\"@)) by {
                reveal_strlit("Policies\\Microsoft\\Windows\\Windows Chat");
                reveal_strlit("Policies\\");
                assert("Policies\\Microsoft\\Windows\\Windows Chat"@.subrange(0, 9) =~= "Policies\\"@);
            }
            lemma_root("Policies\\Microsoft\\Windows\\Windows Chat"@, hive_roots(Hive::Software), 1);
        } else if j == 26 {
            assert(starts_with("Policies\\Microsoft\\Windows\\OOBE"@, "Policies\\"@)) by {
                reveal_strlit("Policies\\Microsoft\\Windows\\OOBE");
                reveal_strlit("Policies\\");
                assert("Policies\\Microsoft\\Windows\\OOBE"@.subrange(0, 9) =~= "Policies\\"@);
            }
            lemma_root("Policies\\Microsoft\\Windows\\OOBE"@, hive_roots(Hive::Software), 1);
        } else if j == 27 {
            assert(starts_with("Microsoft\\Windows\\CurrentVersion\\OOBE"@, "Microsoft\\"@)) by {
                reveal_strlit("Microsoft\\Windows\\CurrentVersion\\OOBE");
                reveal_strlit("Microsoft\\");
                assert("Microsoft\\Windows\\CurrentVersion\\OOBE"@.subrange(0, 10) =~= "Microsoft\\"@);
            }
            lemma_root("Microsoft\\Windows\\CurrentVersion\\OOBE"@, hive_roots(Hive::Software), 0);
        } else if j == 28 {
            assert(starts_with("Microsoft\\Windows\\CurrentVersion\\OOBE"@, "Microsoft\\"@)) by {
                reveal_strlit("Microsoft\\Windows\\CurrentVersion\\OOBE");
                reveal_strlit("Microsoft\\");
                assert("Microsoft\\Windows\\CurrentVersion\\OOBE"@.subrange(0, 10) =~= "Microsoft\\"@);
            }
            lemma_root("Microsoft\\Windows\\CurrentVersion\\OOBE"@, hive_roots(Hive::Software), 0);
        } else if j == 29 {
            assert(starts_with("Microsoft\\Windows NT\\CurrentVersion\\Schedule\\TaskCache\\Tree\\Microsoft\\Windows\\Application Experience\\PcaPatchDbTask"@, "Microsoft\\"@)) by {
                reveal_strlit("Microsoft\\Windows NT\\CurrentVersion\\Schedule\\TaskCache\\Tree\\Microsoft\\Windows\\Application Experience\\PcaPatchDbTask");
                reveal_strlit("Microsoft\\");
                assert("Microsoft\\Windows NT\\CurrentVersion\\Schedule\\TaskCache\\Tree\\Microsoft\\Windows\\Application Experience\\PcaPatchDbTask"@.subrange(0, 10) =~= "Microsoft\\"@);
            }
            lemma_root("Microsoft\\Windows NT\\CurrentVersion\\Schedule\\TaskCache\\Tree\\Microsoft\\Windows\\Application Experience\\PcaPatchDbTask"@, hive_roots(Hive::Software), 0);
        } else if j == 30 {
            assert(starts_with("Microsoft\\Windows NT\\CurrentVersion\\Schedule\\TaskCache\\Tree\\Microsoft\\Windows\\Application Experience\\MareBackup"@, "Microsoft\\"@)) by {
                reveal_strlit("Microsoft\\Windows NT\\CurrentVersion\\Schedule\\TaskCache\\Tree\\Microsoft\\Windows\\Application Experience\\MareBackup");
                reveal_strlit("Microsoft\\");
                assert("Microsoft\\Windows NT\\CurrentVersion\\Schedule\\TaskCache\\Tree\\Microsoft\\Windows\\Application Experience\\MareBackup"@.subrange(0, 10) =~= "Microsoft\\"@);
            }
            lemma_root("Microsoft\\Windows NT\\CurrentVersion\\Schedule\\TaskCache\\Tree\\Microsoft\\Windows\\Application Experience\\MareBackup"@, hive_roots(Hive::Software), 0);
        } else if j == 31 {
            assert(starts_with("Microsoft\\Windows NT\\CurrentVersion\\Schedule\\TaskCache\\Tree\\Microsoft\\Windows\\Application Experience\\ProgramDataUpdater"@, "Microsoft\\"@)) by {
                reveal_strlit("Microsoft\\Windows NT\\CurrentVersion\\Schedule\\TaskCache\\Tree\\Microsoft\\Windows\\Application Experience\\ProgramDataUpdater");
                reveal_strlit("Microsoft\\");
                assert("Microsoft\\Windows NT\\CurrentVersion\\Schedule\\TaskCache\\Tree\\Microsoft\\Windows\\Application Experience\\ProgramDataUpdater"@.subrange(0, 10) =~= "Microsoft\\"@);
            }
            lemma_root("Microsoft\\Windows NT\\CurrentVersion\\Schedule\\TaskCache\\Tree\\Microsoft\\Windows\\Application Experience\\ProgramDataUpdater"@, hive_roots(Hive::Software), 0);
        } else if j == 32 {
            assert(starts_with("Microsoft\\Windows NT\\CurrentVersion\\Schedule\\TaskCache\\Tree\\Microsoft\\Windows\\Application Experience\\Microsoft Compatibility Appraiser"@, "Microsoft\\"@)) by {
                reveal_strlit("Microsoft\\Windows NT\\CurrentVersion\\Schedule\\TaskCache\\Tree\\Microsoft\\Windows\\Application Experience\\Microsoft Compatibility Appraiser");
                reveal_strlit("Microsoft\\");
                assert("Microsoft\\Windows NT\\CurrentVersion\\Schedule\\TaskCache\\Tree\\Microsoft\\Windows\\Application Experience\\Microsoft Compatibility Appraiser"@.subrange(0, 10) =~= "Microsoft\\"@);
            }
            lemma_root("Microsoft\\Windows NT\\CurrentVersion\\Schedule\\TaskCache\\Tree\\Microsoft\\Windows\\Application Experience\\Microsoft Compatibility Appraiser"@, hive_roots(Hive::Software), 0);
        } else if j == 33 {
            assert(starts_with("Microsoft\\Windows NT\\CurrentVersion\\Schedule\\TaskCache\\Tree\\Microsoft\\Windows\\Application Experience\\Microsoft Compatibility Appraiser Exp"@, "Microsoft\\"@)) by {
                reveal_strlit("Microsoft\\Windows NT\\CurrentVersion\\Schedule\\TaskCache\\Tree\\Microsoft\\Windows\\Application Experience\\Microsoft Compatibility Appraiser Exp");
                reveal_strlit("Microsoft\\");
                assert("Microsoft\\Windows NT\\CurrentVersion\\Schedule\\TaskCache\\Tree\\Microsoft\\Windows\\Application Experience\\Microsoft Compatibility Appraiser Exp"@.subrange(0, 10) =~= "Microsoft\\"@);
            }
            lemma_root("Microsoft\\Windows NT\\CurrentVersion\\Schedule\\TaskCache\\Tree\\Microsoft\\Windows\\Application Experience\\Microsoft Compatibility Appraiser Exp"@, hive_roots(Hive::Software), 0);
        } else if j == 34 {
            assert(starts_with("Microsoft\\Windows NT\\CurrentVersion\\Schedule\\TaskCache\\Tree\\Microsoft\\Windows\\Autochk\\Proxy"@, "Microsoft\\"@)) by {
                reveal_strlit("Microsoft\\Windows NT\\CurrentVersion\\Schedule\\TaskCache\\Tree\\Microsoft\\Windows\\Autochk\\Proxy");
                reveal_strlit("Microsoft\\");
                assert("Microsoft\\Windows NT\\CurrentVersion\\Schedule\\TaskCache\\Tree\\Microsoft\\Windows\\Autochk\\Proxy"@.subrange(0, 10) =~= "Microsoft\\"@);
            }
            lemma_root("Microsoft\\Windows NT\\CurrentVersion\\Schedule\\TaskCache\\Tree\\Microsoft\\Windows\\Autochk\\Proxy"@, hive_roots(Hive::Software), 0);
        } else if j == 35 {
            assert(starts_with("Microsoft\\Windows NT\\CurrentVersion\\Schedule\\TaskCache\\Tree\\Microsoft\\Windows\\Customer Experience Improvement Program\\Consolidator"@, "Microsoft\\"@)) by {
                reveal_strlit("Microsoft\\Windows NT\\CurrentVersion\\Schedule\\TaskCache\\Tree\\Microsoft\\Windows\\Customer Experience Improvement Program\\Consolidator");
                reveal_strlit("Microsoft\\");
                assert("Microsoft\\Windows NT\\CurrentVersion\\Schedule\\TaskCache\\Tree\\Microsoft\\Windows\\Customer Experience Improvement Program\\Consolidator"@.subrange(0, 10) =~= "Microsoft\\"@);
            }
            lemma_root("Microsoft\\Windows NT\\CurrentVersion\\Schedule\\TaskCache\\Tree\\Microsoft\\Windows\\Customer Experience Improvement Program\\Consolidator"@, hive_roots(Hive::Software), 0);
        } else if j == 36 {
            assert(starts_with("Microsoft\\Windows NT\\CurrentVersion\\Schedule\\TaskCache\\Tree\\Microsoft\\Windows\\Customer Experience Improvement Program\\KernelCeipTask"@, "Microsoft\\"@)) by {
                reveal_strlit("Microsoft\\Windows NT\\CurrentVersion\\Schedule\\TaskCache\\Tree\\Microsoft\\Windows\\Customer Experience Improvement Program\\KernelCeipTask");
                reveal_strlit("Microsoft\\");
                assert("Microsoft\\Windows NT\\CurrentVersion\\Schedule\\TaskCache\\Tree\\Microsoft\\Windows\\Customer Experience Improvement Program\\KernelCeipTask"@.subrange(0, 10) =~= "Microsoft\\"@);
            }
            lemma_root("Microsoft\\Windows NT\\CurrentVersion\\Schedule\\TaskCache\\Tree\\Microsoft\\Windows\\Customer Experience Improvement Program\\KernelCeipTask"@, hive_roots(Hive::Software), 0);
        } else if j == 37 {
            assert(starts_with("Microsoft\\Windows NT\\CurrentVersion\\Schedule\\TaskCache\\Tree\\Microsoft\\Windows\\Customer Experience Improvement Program\\UsbCeip"@, "Microsoft\\"@)) by {
                reveal_strlit("Microsoft\\Windows NT\\CurrentVersion\\Schedule\\TaskCache\\Tree\\Microsoft\\Windows\\Customer Experience Improvement Program\\UsbCeip");
                reveal_strlit("Microsoft\\");
                assert("Microsoft\\Windows NT\\CurrentVersion\\Schedule\\TaskCache\\Tree\\Microsoft\\Windows\\Customer Experience Improvement Program\\UsbCeip"@.subrange(0, 10) =~= "Microsoft\\"@);
            }
            lemma_root("Microsoft\\Windows NT\\CurrentVersion\\Schedule\\TaskCache\\Tree\\Microsoft\\Windows\\Customer Experience Improvement Program\\UsbCeip"@, hive_roots(Hive::Software), 0);
        } else if j == 38 {
            assert(starts_with("Microsoft\\Windows NT\\CurrentVersion\\Schedule\\TaskCache\\Tree\\Microsoft\\Windows\\Customer Experience Improvement Program"@, "Microsoft\\"@)) by {
                reveal_strlit("Microsoft\\Windows NT\\CurrentVersion\\Schedule\\TaskCache\\Tree\\Microsoft\\Windows\\Customer Experience Improvement Program");
                reveal_strlit("Microsoft\\");
                assert("Microsoft\\Windows NT\\CurrentVersion\\Schedule\\TaskCache\\Tree\\Microsoft\\Windows\\Customer Experience Improvement Program"@.subrange(0, 10) =~= "Microsoft\\"@);
            }
            lemma_root("Microsoft\\Windows NT\\CurrentVersion\\Schedule\\TaskCache\\Tree\\Microsoft\\Windows\\Customer Experience Improvement Program"@, hive_roots(Hive::Software), 0);
        }
    }
}

proof fn lemma_privacy_system_ops_fit()
    ensures
        keys_fit(Hive::System, privacy_system_ops()),
{
    let t = privacy_system_ops();
    assert forall|j: int| 0 <= j < t.len() implies starts_any(op_key(#[trigger] t[j]), hive_roots(Hive::System)) by {
        if j == 0 {
            assert(starts_with("ControlSet001\\Services\\dmwappushservice"@, "ControlSet001\\"@)) by {
                reveal_strlit("ControlSet001\\Services\\dmwappushservice");
                reveal_strlit("ControlSet001\\");
                assert("ControlSet001\\Services\\dmwappushservice"@.subrange(0, 14) =~= "ControlSet001\\"@);
            }
            lemma_root("ControlSet001\\Services\\dmwappushservice"@, hive_roots(Hive::System), 0);
        } else if j == 1 {
            assert(starts_with("ControlSet001\\Services\\BcastDVRUserService"@, "ControlSet001\\"@)) by {
                reveal_strlit("ControlSet001\\Services\\BcastDVRUserService");
                reveal_strlit("ControlSet001\\");
                assert("ControlSet001\\Services\\BcastDVRUserService"@.subrange(0, 14) =~= "ControlSet001\\"@);
            }
            lemma_root("ControlSet001\\Services\\BcastDVRUserService"@, hive_roots(Hive::System), 0);
        } else if j == 2 {
            assert(starts_with("ControlSet001\\Services\\GameBarPresenceWriter"@, "ControlSet001\\"@)) by {
                reveal_strlit("ControlSet001\\Services\\GameBarPresenceWriter");
                reveal_strlit("ControlSet001\\");
                assert("ControlSet001\\Services\\GameBarPresenceWriter"@.subrange(0, 14) =~= "ControlSet001\\"@);
            }
            lemma_root("ControlSet001\\Services\\GameBarPresenceWriter"@, hive_roots(Hive::System), 0);
        }
    }
}

proof fn lemma_privacy_ntuser_ops_fit()
    ensures
        keys_fit(Hive::NtUser, privacy_ntuser_ops()),
{
    let t = privacy_ntuser_ops();
    assert forall|j: int| 0 <= j < t.len() implies starts_any(op_key(#[trigger] t[j]), hive_roots(Hive::NtUser)) by {
        if j == 0 {
            assert(starts_with("Software\\Microsoft\\Windows\\CurrentVersion\\ContentDeliveryManager"@, "Software\\"@)) by {
                reveal_strlit("Software\\Microsoft\\Windows\\CurrentVersion\\ContentDeliveryManager");
                reveal_strlit("Software\\");
                assert("Software\\Microsoft\\Windows\\CurrentVersion\\ContentDeliveryManager"@.subrange(0, 9) =~= "Software\\"@);
            }
            lemma_root("Software\\Microsoft\\Windows\\CurrentVersion\\ContentDeliveryManager"@, hive_roots(Hive::NtUser), 0);
        } else if j == 1 {
            assert(starts_with("Software\\Microsoft\\Windows\\CurrentVersion\\ContentDeliveryManager"@, "Software\\"@)) by {
                reveal_strlit("Software\\Microsoft\\Windows\\CurrentVersion\\ContentDeliveryManager");
                reveal_strlit("Software\\");
                assert("Software\\Microsoft\\Windows\\CurrentVersion\\ContentDeliveryManager"@.subrange(0, 9) =~= "Software\\"@);
            }
            lemma_root("Software\\Microsoft\\Windows\\CurrentVersion\\ContentDeliveryManager"@, hive_roots(Hive::NtUser), 0);
        } else if j == 2 {
            assert(starts_with("Software\\Microsoft\\Windows\\CurrentVersion\\ContentDeliveryManager"@, "Software\\"@)) by {
                reveal_strlit("Software\\Microsoft\\Windows\\CurrentVersion\\ContentDeliveryManager");
                reveal_strlit("Software\\");
                assert("Software\\Microsoft\\Windows\\CurrentVersion\\ContentDeliveryManager"@.subrange(0, 9) =~= "Software\\"@);
            }
            lemma_root("Software\\Microsoft\\Windows\\CurrentVersion\\ContentDeliveryManager"@, hive_roots(Hive::NtUser), 0);
        } else if j == 3 {
            assert(starts_with("Software\\Microsoft\\Windows\\CurrentVersion\\ContentDeliveryManager"@, "Software\\"@)) by {
                reveal_strlit("Software\\Microsoft\\Windows\\CurrentVersion\\ContentDeliveryManager");
                reveal_strlit("Software\\");
                assert("Software\\Microsoft\\Windows\\CurrentVersion\\ContentDeliveryManager"@.subrange(0, 9) =~= "Software\\"@);
            }
            lemma_root("Software\\Microsoft\\Windows\\CurrentVersion\\ContentDeliveryManager"@, hive_roots(Hive::NtUser), 0);
        } else if j == 4 {
            assert(starts_with("Software\\Microsoft\\Windows\\CurrentVersion\\ContentDeliveryManager"@, "Software\\"@)) by {
                reveal_strlit("Software\\Microsoft\\Windows\\CurrentVersion\\ContentDeliveryManager");
                reveal_strlit("Software\\");
                assert("Software\\Microsoft\\Windows\\CurrentVersion\\ContentDeliveryManager"@.subrange(0, 9) =~= "Software\\"@);
            }
            lemma_root("Software\\Microsoft\\Windows\\CurrentVersion\\ContentDeliveryManager"@, hive_roots(Hive::NtUser), 0);
        } else if j == 5 {
            assert(starts_with("Software\\Microsoft\\Windows\\CurrentVersion\\ContentDeliveryManager"@, "Software\\"@)) by {
                reveal_strlit("Software\\Microsoft\\Windows\\CurrentVersion\\ContentDeliveryManager");
                reveal_strlit("Software\\");
                assert("Software\\Microsoft\\Windows\\CurrentVersion\\ContentDeliveryManager"@.subrange(0, 9) =~= "Software\\"@);
            }
            lemma_root("Software\\Microsoft\\Windows\\CurrentVersion\\ContentDeliveryManager"@, hive_roots(Hive::NtUser), 0);
        } else if j == 6 {
            assert(starts_with("Software\\Microsoft\\Windows\\CurrentVersion\\ContentDeliveryManager"@, "Software\\"@)) by {
                reveal_strlit("Software\\Microsoft\\Windows\\CurrentVersion\\ContentDeliveryManager");
                reveal_strlit("Software\\");
                assert("Software\\Microsoft\\Windows\\CurrentVersion\\ContentDeliveryManager"@.subrange(0, 9) =~= "Software\\"@);
            }
            lemma_root("Software\\Microsoft\\Windows\\CurrentVersion\\ContentDeliveryManager"@, hive_roots(Hive::NtUser), 0);
        } else if j == 7 {
            assert(starts_with("Software\\Microsoft\\Windows\\CurrentVersion\\ContentDeliveryManager"@, "Software\\"@)) by {
                reveal_strlit("Software\\Microsoft\\Windows\\CurrentVersion\\ContentDeliveryManager");
                reveal_strlit("Software\\");
                assert("Software\\Microsoft\\Windows\\CurrentVersion\\ContentDeliveryManager"@.subrange(0, 9) =~= "Software\\"@);
            }
            lemma_root("Software\\Microsoft\\Windows\\CurrentVersion\\ContentDeliveryManager"@, hive_roots(Hive::NtUser), 0);
        } else if j == 8 {
            assert(starts_with("Software\\Microsoft\\Windows\\CurrentVersion\\ContentDeliveryManager"@, "Software\\"@)) by {
                reveal_strlit("Software\\Microsoft\\Windows\\CurrentVersion\\ContentDeliveryManager");
                reveal_strlit("Software\\");
                assert("Software\\Microsoft\\Windows\\CurrentVersion\\ContentDeliveryManager"@.subrange(0, 9) =~= "Software\\"@);
            }
            lemma_root("Software\\Microsoft\\Windows\\CurrentVersion\\ContentDeliveryManager"@, hive_roots(Hive::NtUser), 0);
        } else if j == 9 {
            assert(starts_with("Software\\Microsoft\\Windows\\CurrentVersion\\ContentDeliveryManager"@, "Software\\"@)) by {
                reveal_strlit("Software\\Microsoft\\Windows\\CurrentVersion\\ContentDeliveryManager");
                reveal_strlit("Software\\");
                assert("Software\\Microsoft\\Windows\\CurrentVersion\\ContentDeliveryManager"@.subrange(0, 9) =~= "Software\\"@);
            }
            lemma_root("Software\\Microsoft\\Windows\\CurrentVersion\\ContentDeliveryManager"@, hive_roots(Hive::NtUser), 0);
        } else if j == 10 {
            assert(starts_with("Software\\Microsoft\\Windows\\CurrentVersion\\ContentDeliveryManager"@, "Software\\"@)) by {
                reveal_strlit("Software\\Microsoft\\Windows\\CurrentVersion\\ContentDeliveryManager");
                reveal_strlit("Software\\");
                assert("Software\\Microsoft\\Windows\\CurrentVersion\\ContentDeliveryManager"@.subrange(0, 9) =~= "Software\\"@);
            }
            lemma_root("Software\\Microsoft\\Windows\\CurrentVersion\\ContentDeliveryManager"@, hive_roots(Hive::NtUser), 0);
        } else if j == 11 {
            assert(starts_with("Software\\Microsoft\\Windows\\CurrentVersion\\ContentDeliveryManager"@, "Software\\"@)) by {
                reveal_strlit("Software\\Microsoft\\Windows\\CurrentVersion\\ContentDeliveryManager");
                reveal_strlit("Software\\");
                assert("Software\\Microsoft\\Windows\\CurrentVersion\\ContentDeliveryManager"@.subrange(0, 9) =~= "Software\\"@);
            }
            lemma_root("Software\\Microsoft\\Windows\\CurrentVersion\\ContentDeliveryManager"@, hive_roots(Hive::NtUser), 0);
        } else if j == 12 {
            assert(starts_with("Software\\Microsoft\\Windows\\CurrentVersion\\ContentDeliveryManager"@, "Software\\"@)) by {
                reveal_strlit("Software\\Microsoft\\Windows\\CurrentVersion\\ContentDeliveryManager");
                reveal_strlit("Software\\");
                assert("Software\\Microsoft\\Windows\\CurrentVersion\\ContentDeliveryManager"@.subrange(0, 9) =~= "Software\\"@);
            }
            lemma_root("Software\\Microsoft\\Windows\\CurrentVersion\\ContentDeliveryManager"@, hive_roots(Hive::NtUser), 0);
        } else if j == 13 {
            assert(starts_with("Software\\Microsoft\\Windows\\CurrentVersion\\ContentDeliveryManager"@, "Software\\"@)) by {
                reveal_strlit("Software\\Microsoft\\Windows\\CurrentVersion\\ContentDeliveryManager");
                reveal_strlit("Software\\");
                assert("Software\\Microsoft\\Windows\\CurrentVersion\\ContentDeliveryManager"@.subrange(0, 9) =~= "Software\\"@);
            }
            lemma_root("Software\\Microsoft\\Windows\\CurrentVersion\\ContentDeliveryManager"@, hive_roots(Hive::NtUser), 0);
        } else if j == 14 {
            assert(starts_with("Software\\Microsoft\\Windows\\CurrentVersion\\ContentDeliveryManager\\Subscriptions"@, "Software\\"@)) by {
                reveal_strlit("Software\\Microsoft\\Windows\\CurrentVersion\\ContentDeliveryManager\\Subscriptions");
                reveal_strlit("Software\\");
                assert("Software\\Microsoft\\Windows\\CurrentVersion\\ContentDeliveryManager\\Subscriptions"@.subrange(0, 9) =~= "Software\\"@);
            }
            lemma_root("Software\\Microsoft\\Windows\\CurrentVersion\\ContentDeliveryManager\\Subscriptions"@, hive_roots(Hive::NtUser), 0);
        } else if j == 15 {
            assert(starts_with("Software\\Microsoft\\Windows\\CurrentVersion\\ContentDeliveryManager\\SuggestedApps"@, "Software\\"@)) by {
                reveal_strlit("Software\\Microsoft\\Windows\\CurrentVersion\\ContentDeliveryManager\\SuggestedApps");
                reveal_strlit("Software\\");
                assert("Software\\Microsoft\\Windows\\CurrentVersion\\ContentDeliveryManager\\SuggestedApps"@.subrange(0, 9) =~= "Software\\"@);
            }
            lemma_root("Software\\Microsoft\\Windows\\CurrentVersion\\ContentDeliveryManager\\SuggestedApps"@, hive_roots(Hive::NtUser), 0);
        } else if j == 16 {
            assert(starts_with("Software\\Microsoft\\Personalization\\Settings"@, "Software\\"@)) by {
                reveal_strlit("Software\\Microsoft\\Personalization\\Settings");
                reveal_strlit("Software\\");
                assert("Software\\Microsoft\\Personalization\\Settings"@.subrange(0, 9) =~= "Software\\"@);
            }
            lemma_root("Software\\Microsoft\\Personalization\\Settings"@, hive_roots(Hive::NtUser), 0);
        } else if j == 17 {
            assert(starts_with("Software\\Microsoft\\Windows\\CurrentVersion\\Privacy"@, "Software\\"@)) by {
                reveal_strlit("Software\\Microsoft\\Windows\\CurrentVersion\\Privacy");
                reveal_strlit("Software\\");
                assert("Software\\Microsoft\\Windows\\CurrentVersion\\Privacy"@.subrange(0, 9) =~= "Software\\"@);
            }
            lemma_root("Software\\Microsoft\\Windows\\CurrentVersion\\Privacy"@, hive_roots(Hive::NtUser), 0);
        } else if j == 18 {
            assert(starts_with("Software\\Microsoft\\Speech_OneCore\\Settings\\OnlineSpeechPrivacy"@, "Software\\"@)) by {
                reveal_strlit("Software\\Microsoft\\Speech_OneCore\\Settings\\OnlineSpeechPrivacy");
                reveal_strlit("Software\\");
                assert("Software\\Microsoft\\Speech_OneCore\\Settings\\OnlineSpeechPrivacy"@.subrange(0, 9) =~= "Software\\"@);
            }
            lemma_root("Software\\Microsoft\\Speech_OneCore\\Settings\\OnlineSpeechPrivacy"@, hive_roots(Hive::NtUser), 0);
        } else if j == 19 {
            assert(starts_with("Software\\Microsoft\\InputPersonalization"@, "Software\\"@)) by {
                reveal_strlit("Software\\Microsoft\\InputPersonalization");
                reveal_strlit("Software\\");
                assert("Software\\Microsoft\\InputPersonalization"@.subrange(0, 9) =~= "Software\\"@);
            }
            lemma_root("Software\\Microsoft\\InputPersonalization"@, hive_roots(Hive::NtUser), 0);
        } else if j == 20 {
            assert(starts_with("Software\\Microsoft\\InputPersonalization"@, "Software\\"@)) by {
                reveal_strlit("Software\\Microsoft\\InputPersonalization");
                reveal_strlit("Software\\");
                assert("Software\\Microsoft\\InputPersonalization"@.subrange(0, 9) =~= "Software\\"@);
            }
            lemma_root("Software\\Microsoft\\InputPersonalization"@, hive_roots(Hive::NtUser), 0);
        } else if j == 21 {
            assert(starts_with("Software\\Microsoft\\InputPersonalization\\TrainedDataStore"@, "Software\\"@)) by {
                reveal_strlit("Software\\Microsoft\\InputPersonalization\\TrainedDataStore");
                reveal_strlit("Software\\");
                assert("Software\\Microsoft\\InputPersonalization\\TrainedDataStore"@.subrange(0, 9) =~= "Software\\"@);
            }
            lemma_root("Software\\Microsoft\\InputPersonalization\\TrainedDataStore"@, hive_roots(Hive::NtUser), 0);
        } else if j == 22 {
            assert(starts_with("Software\\Microsoft\\Windows\\CurrentVersion\\AdvertisingInfo"@, "Software\\"@)) by {
                reveal_strlit("Software\\Microsoft\\Windows\\CurrentVersion\\AdvertisingInfo");
                reveal_strlit("Software\\");
                assert("Software\\Microsoft\\Windows\\CurrentVersion\\AdvertisingInfo"@.subrange(0, 9) =~= "Software\\"@);
            }
            lemma_root("Software\\Microsoft\\Windows\\CurrentVersion\\AdvertisingInfo"@, hive_roots(Hive::NtUser), 0);
        } else if j == 23 {
            assert(starts_with("Software\\Microsoft\\Windows\\CurrentVersion\\Explorer\\Advanced"@, "Software\\"@)) by {
                reveal_strlit("Software\\Microsoft\\Windows\\CurrentVersion\\Explorer\\Advanced");
                reveal_strlit("Software\\");
                assert("Software\\Microsoft\\Windows\\CurrentVersion\\Explorer\\Advanced"@.subrange(0, 9) =~= "Software\\"@);
            }
            lemma_root("Software\\Microsoft\\Windows\\CurrentVersion\\Explorer\\Advanced"@, hive_roots(Hive::NtUser), 0);
        } else if j == 24 {
            assert(starts_with("Software\\Microsoft\\Windows\\CurrentVersion\\Explorer\\Advanced"@, "Software\\"@)) by {
                reveal_strlit("Software\\Microsoft\\Windows\\CurrentVersion\\Explorer\\Advanced");
                reveal_strlit("Software\\");
                assert("Software\\Microsoft\\Windows\\CurrentVersion\\Explorer\\Advanced"@.subrange(0, 9) =~= "Software\\"@);
            }
            lemma_root("Software\\Microsoft\\Windows\\CurrentVersion\\Explorer\\Advanced"@, hive_roots(Hive::NtUser), 0);
        } else if j == 25 {
            assert(starts_with("Software\\Microsoft\\Windows\\CurrentVersion\\Explorer\\HideDesktopIcons\\NewStartPanel"@, "Software\\"@)) by {
                reveal_strlit("Software\\Microsoft\\Windows\\CurrentVersion\\Explorer\\HideDesktopIcons\\NewStartPanel");
                reveal_strlit("Software\\");
                assert("Software\\Microsoft\\Windows\\CurrentVersion\\Explorer\\HideDesktopIcons\\NewStartPanel"@.subrange(0, 9) =~= "Software\\"@);
            }
            lemma_root("Software\\Microsoft\\Windows\\CurrentVersion\\Explorer\\HideDesktopIcons\\NewStartPanel"@, hive_roots(Hive::NtUser), 0);
        } else if j == 26 {
            assert(starts_with("Control Panel\\Mouse"@, "Control Panel\\"@)) by {
                reveal_strlit("Control Panel\\Mouse");
                reveal_strlit("Control Panel\\");
                assert("Control Panel\\Mouse"@.subrange(0, 14) =~= "Control Panel\\"@);
            }
            lemma_root("Control Panel\\Mouse"@, hive_roots(Hive::NtUser), 2);
        } else if j == 27 {
            assert(starts_with("Control Panel\\Mouse"@, "Control Panel\\"@)) by {
                reveal_strlit("Control Panel\\Mouse");
                reveal_strlit("Control Panel\\");
                assert("Control Panel\\Mouse"@.subrange(0, 14) =~= "Control Panel\\"@);
            }
            lemma_root("Control Panel\\Mouse"@, hive_roots(Hive::NtUser), 2);
        } else if j == 28 {
            assert(starts_with("Control Panel\\Mouse"@, "Control Panel\\"@)) by {
                reveal_strlit("Control Panel\\Mouse");
                reveal_strlit("Control Panel\\");
                assert("Control Panel\\Mouse"@.subrange(0, 14) =~= "Control Panel\\"@);
            }
            lemma_root("Control Panel\\Mouse"@, hive_roots(Hive::NtUser), 2);
        } else if j == 29 {
            assert(starts_with("Control Panel\\Desktop"@, "Control Panel\\"@)) by {
                reveal_strlit("Control Panel\\Desktop");
                reveal_strlit("Control Panel\\");
                assert("Control Panel\\Desktop"@.subrange(0, 14) =~= "Control Panel\\"@);
            }
            lemma_root("Control Panel\\Desktop"@, hive_roots(Hive::NtUser), 2);
        } else if j == 30 {
            assert(starts_with("Software\\Microsoft\\Windows\\CurrentVersion\\GameDVR"@, "Software\\"@)) by {
                reveal_strlit("Software\\Microsoft\\Windows\\CurrentVersion\\GameDVR");
                reveal_strlit("Software\\");
                assert("Software\\Microsoft\\Windows\\CurrentVersion\\GameDVR"@.subrange(0, 9) =~= "Software\\"@);
            }
            lemma_root("Software\\Microsoft\\Windows\\CurrentVersion\\GameDVR"@, hive_roots(Hive::NtUser), 0);
        } else if j == 31 {
            assert(starts_with("System\\GameConfigStore"@, "System\\"@)) by {
                reveal_strlit("System\\GameConfigStore");
                reveal_strlit("System\\");
                assert("System\\GameConfigStore"@.subrange(0, 7) =~= "System\\"@);
            }
            lemma_root("System\\GameConfigStore"@, hive_roots(Hive::NtUser), 3);
        } else if j == 32 {
            assert(starts_with("Software\\Microsoft\\GameBar"@, "Software\\"@)) by {
                reveal_strlit("Software\\Microsoft\\GameBar");
                reveal_strlit("Software\\");
                assert("Software\\Microsoft\\GameBar"@.subrange(0, 9) =~= "Software\\"@);
            }
            lemma_root("Software\\Microsoft\\GameBar"@, hive_roots(Hive::NtUser), 0);
        } else if j == 33 {
            assert(starts_with("Software\\Microsoft\\Windows\\CurrentVersion\\Run"@, "Software\\"@)) by {
                reveal_strlit("Software\\Microsoft\\Windows\\CurrentVersion\\Run");
                reveal_strlit("Software\\");
                assert("Software\\Microsoft\\Windows\\CurrentVersion\\Run"@.subrange(0, 9) =~= "Software\\"@);
            }
            lemma_root("Software\\Microsoft\\Windows\\CurrentVersion\\Run"@, hive_roots(Hive::NtUser), 0);
        }
    }
}

proof fn lemma_tpm_system_ops_fit()
    ensures
        keys_fit(Hive::System, tpm_system_ops()),
{
    let t = tpm_system_ops();
    assert forall|j: int| 0 <= j < t.len() implies starts_any(op_key(#[trigger] t[j]), hive_roots(Hive::System)) by {
        if j == 0 {
            assert(starts_with("Setup\\LabConfig"@, "Setup\\"@)) by {
                reveal_strlit("Setup\\LabConfig");
                reveal_strlit("Setup\\");
                assert("Setup\\LabConfig"@.subrange(0, 6) =~= "Setup\\"@);
            }
            lemma_root("Setup\\LabConfig"@, hive_roots(Hive::System), 2);
        } else if j == 1 {
            assert(starts_with("Setup\\LabConfig"@, "Setup\\"@)) by {
                reveal_strlit("Setup\\LabConfig");
                reveal_strlit("Setup\\");
                assert("Setup\\LabConfig"@.subrange(0, 6) =~= "Setup\\"@);
            }
            lemma_root("Setup\\LabConfig"@, hive_roots(Hive::System), 2);
        } else if j == 2 {
            assert(starts_with("Setup\\LabConfig"@, "Setup\\"@)) by {
                reveal_strlit("Setup\\LabConfig");
                reveal_strlit("Setup\\");
                assert("Setup\\LabConfig"@.subrange(0, 6) =~= "Setup\\"@);
            }
            lemma_root("Setup\\LabConfig"@, hive_roots(Hive::System), 2);
        } else if j == 3 {
            assert(starts_with("Setup\\LabConfig"@, "Setup\\"@)) by {
                reveal_strlit("Setup\\LabConfig");
                reveal_strlit("Setup\\");
                assert("Setup\\LabConfig"@.subrange(0, 6) =~= "Setup\\"@);
            }
            lemma_root("Setup\\LabConfig"@, hive_roots(Hive::System), 2);
        } else if j == 4 {
            assert(starts_with("Setup\\LabConfig"@, "Setup\\"@)) by {
                reveal_strlit("Setup\\LabConfig");
                reveal_strlit("Setup\\");
                assert("Setup\\LabConfig"@.subrange(0, 6) =~= "Setup\\"@);
            }
            lemma_root("Setup\\LabConfig"@, hive_roots(Hive::System), 2);
        } else if j == 5 {
            assert(starts_with("Setup\\LabConfig"@, "Setup\\"@)) by {
                reveal_strlit("Setup\\LabConfig");
                reveal_strlit("Setup\\");
                assert("Setup\\LabConfig"@.subrange(0, 6) =~= "Setup\\"@);
            }
            lemma_root("Setup\\LabConfig"@, hive_roots(Hive::System), 2);
        } else if j == 6 {
            assert(starts_with("Setup\\MoSetup"@, "Setup\\"@)) by {
                reveal_strlit("Setup\\MoSetup");
                reveal_strlit("Setup\\");
                assert("Setup\\MoSetup"@.subrange(0, 6) =~= "Setup\\"@);
            }
            lemma_root("Setup\\MoSetup"@, hive_roots(Hive::System), 2);
        }
    }
}

proof fn lemma_tpm_software_ops_fit()
    ensures
        keys_fit(Hive::Software, tpm_software_ops()),
{
    let t = tpm_software_ops();
    assert forall|j: int| 0 <= j < t.len() implies starts_any(op_key(#[trigger] t[j]), hive_roots(Hive::Software)) by {
        if j == 0 {
            assert(starts_with("Microsoft\\Windows\\CurrentVersion\\Policies\\System"@, "Microsoft\\"@)) by {
                reveal_strlit("Microsoft\\Windows\\CurrentVersion\\Policies\\System");
                reveal_strlit("Microsoft\\");
                assert("Microsoft\\Windows\\CurrentVersion\\Policies\\System"@.subrange(0, 10) =~= "Microsoft\\"@);
            }
            lemma_root("Microsoft\\Windows\\CurrentVersion\\Policies\\System"@, hive_roots(Hive::Software), 0);
        } else if j == 1 {
            assert(starts_with("Microsoft\\Windows NT\\CurrentVersion\\AppCompatFlags\\CompatMarkers"@, "Microsoft\\"@)) by {
                reveal_strlit("Microsoft\\Windows NT\\CurrentVersion\\AppCompatFlags\\CompatMarkers");
                reveal_strlit("Microsoft\\");
                assert("Microsoft\\Windows NT\\CurrentVersion\\AppCompatFlags\\CompatMarkers"@.subrange(0, 10) =~= "Microsoft\\"@);
            }
            lemma_root("Microsoft\\Windows NT\\CurrentVersion\\AppCompatFlags\\CompatMarkers"@, hive_roots(Hive::Software), 0);
        } else if j == 2 {
            assert(starts_with("Microsoft\\Windows NT\\CurrentVersion\\AppCompatFlags\\Shared"@, "Microsoft\\"@)) by {
                reveal_strlit("Microsoft\\Windows NT\\CurrentVersion\\AppCompatFlags\\Shared");
                reveal_strlit("Microsoft\\");
                assert("Microsoft\\Windows NT\\CurrentVersion\\AppCompatFlags\\Shared"@.subrange(0, 10) =~= "Microsoft\\"@);
            }
            lemma_root("Microsoft\\Windows NT\\CurrentVersion\\AppCompatFlags\\Shared"@, hive_roots(Hive::Software), 0);
        } else if j == 3 {
            assert(starts_with("Microsoft\\Windows NT\\CurrentVersion\\AppCompatFlags\\TargetVersionUpgradeExperienceIndicators"@, "Microsoft\\"@)) by {
                reveal_strlit("Microsoft\\Windows NT\\CurrentVersion\\AppCompatFlags\\TargetVersionUpgradeExperienceIndicators");
                reveal_strlit("Microsoft\\");
                assert("Microsoft\\Windows NT\\CurrentVersion\\AppCompatFlags\\TargetVersionUpgradeExperienceIndicators"@.subrange(0, 10) =~= "Microsoft\\"@);
            }
            lemma_root("Microsoft\\Windows NT\\CurrentVersion\\AppCompatFlags\\TargetVersionUpgradeExperienceIndicators"@, hive_roots(Hive::Software), 0);
        } else if j == 4 {
            assert(starts_with("Microsoft\\Windows NT\\CurrentVersion\\AppCompatFlags\\HwReqChk"@, "Microsoft\\"@)) by {
                reveal_strlit("Microsoft\\Windows NT\\CurrentVersion\\AppCompatFlags\\HwReqChk");
                reveal_strlit("Microsoft\\");
                assert("Microsoft\\Windows NT\\CurrentVersion\\AppCompatFlags\\HwReqChk"@.subrange(0, 10) =~= "Microsoft\\"@);
            }
            lemma_root("Microsoft\\Windows NT\\CurrentVersion\\AppCompatFlags\\HwReqChk"@, hive_roots(Hive::Software), 0);
        }
    }
}

proof fn lemma_tpm_default_ops_fit()
    ensures
        keys_fit(Hive::Default, tpm_default_ops()),
{
    let t = tpm_default_ops();
    assert forall|j: int| 0 <= j < t.len() implies starts_any(op_key(#[trigger] t[j]), hive_roots(Hive::Default)) by {
        if j == 0 {
            assert(starts_with("Control Panel\\UnsupportedHardwareNotificationCache"@, "Control Panel\\"@)) by {
                reveal_strlit("Control Panel\\UnsupportedHardwareNotificationCache");
                reveal_strlit("Control Panel\\");
                assert("Control Panel\\UnsupportedHardwareNotificationCache"@.subrange(0, 14) =~= "Control Panel\\"@);
            }
            lemma_root("Control Panel\\UnsupportedHardwareNotificationCache"@, hive_roots(Hive::Default), 2);
        } else if j == 1 {
            assert(starts_with("Control Panel\\UnsupportedHardwareNotificationCache"@, "Control Panel\\"@)) by {
                reveal_strlit("Control Panel\\UnsupportedHardwareNotificationCache");
                reveal_strlit("Control Panel\\");
                assert("Control Panel\\UnsupportedHardwareNotificationCache"@.subrange(0, 14) =~= "Control Panel\\"@);
            }
            lemma_root("Control Panel\\UnsupportedHardwareNotificationCache"@, hive_roots(Hive::Default), 2);
        }
    }
}

proof fn lemma_tpm_ntuser_ops_fit()
    ensures
        keys_fit(Hive::NtUser, tpm_ntuser_ops()),
{
    let t = tpm_ntuser_ops();
    assert forall|j: int| 0 <= j < t.len() implies starts_any(op_key(#[trigger] t[j]), hive_roots(Hive::NtUser)) by {
        if j == 0 {
            assert(starts_with("Control Panel\\UnsupportedHardwareNotificationCache"@, "Control Panel\\"@)) by {
                reveal_strlit("Control Panel\\UnsupportedHardwareNotificationCache");
                reveal_strlit("Control Panel\\");
                assert("Control Panel\\UnsupportedHardwareNotificationCache"@.subrange(0, 14) =~= "Control Panel\\"@);
            }
            lemma_root("Control Panel\\UnsupportedHardwareNotificationCache"@, hive_roots(Hive::NtUser), 2);
        } else if j == 1 {
            assert(starts_with("Control Panel\\UnsupportedHardwareNotificationCache"@, "Control Panel\\"@)) by {
                reveal_strlit("Control Panel\\UnsupportedHardwareNotificationCache");
                reveal_strlit("Control Panel\\");
                assert("Control Panel\\UnsupportedHardwareNotificationCache"@.subrange(0, 14) =~= "Control Panel\\"@);
            }
            lemma_root("Control Panel\\UnsupportedHardwareNotificationCache"@, hive_roots(Hive::NtUser), 2);
        } else if j == 2 {
            assert(starts_with("Software\\Microsoft\\PCHC"@, "Software\\"@)) by {
                reveal_strlit("Software\\Microsoft\\PCHC");
                reveal_strlit("Software\\");
                assert("Software\\Microsoft\\PCHC"@.subrange(0, 9) =~= "Software\\"@);
            }
            lemma_root("Software\\Microsoft\\PCHC"@, hive_roots(Hive::NtUser), 0);
        }
    }
}

proof fn lemma_gamebar_system_ops_fit()
    ensures
        keys_fit(Hive::System, gamebar_system_ops()),
{
    let t = gamebar_system_ops();
    assert forall|j: int| 0 <= j < t.len() implies starts_any(op_key(#[trigger] t[j]), hive_roots(Hive::System)) by {
        if j == 0 {
            assert(starts_with("ControlSet001\\Services\\xbgm"@, "ControlSet001\\"@)) by {
                reveal_strlit("ControlSet001\\Services\\xbgm");
                reveal_strlit("ControlSet001\\");
                assert("ControlSet001\\Services\\xbgm"@.subrange(0, 14) =~= "ControlSet001\\"@);
            }
            lemma_root("ControlSet001\\Services\\xbgm"@, hive_roots(Hive::System), 0);
        }
    }
}

proof fn lemma_task_ops_fit()
    ensures
        keys_fit(Hive::Software, task_ops()),
{
    let t = task_ops();
    assert forall|j: int| 0 <= j < t.len() implies starts_any(op_key(#[trigger] t[j]), hive_roots(Hive::Software)) by {
        if j == 0 {
            assert(starts_with("Microsoft\\Windows NT\\CurrentVersion\\Schedule\\TaskCache\\Tasks\\{780E487D-C62F-4B55-AF84-0E38116AFE07}"@, "Microsoft\\"@)) by {
                reveal_strlit("Microsoft\\Windows NT\\CurrentVersion\\Schedule\\TaskCache\\Tasks\\{780E487D-C62F-4B55-AF84-0E38116AFE07}");
                reveal_strlit("Microsoft\\");
                assert("Microsoft\\Windows NT\\CurrentVersion\\Schedule\\TaskCache\\Tasks\\{780E487D-C62F-4B55-AF84-0E38116AFE07}"@.subrange(0, 10) =~= "Microsoft\\"@);
            }
            lemma_root("Microsoft\\Windows NT\\CurrentVersion\\Schedule\\TaskCache\\Tasks\\{780E487D-C62F-4B55-AF84-0E38116AFE07}"@, hive_roots(Hive::Software), 0);
        } else if j == 1 {
            assert(starts_with("Microsoft\\Windows NT\\CurrentVersion\\Schedule\\TaskCache\\Tasks\\{FD607F42-4541-418A-B812-05C32EBA8626}"@, "Microsoft\\"@)) by {
                reveal_strlit("Microsoft\\Windows NT\\CurrentVersion\\Schedule\\TaskCache\\Tasks\\{FD607F42-4541-418A-B812-05C32EBA8626}");
                reveal_strlit("Microsoft\\");
                assert("Microsoft\\Windows NT\\CurrentVersion\\Schedule\\TaskCache\\Tasks\\{FD607F42-4541-418A-B812-05C32EBA8626}"@.subrange(0, 10) =~= "Microsoft\\"@);
            }
            lemma_root("Microsoft\\Windows NT\\CurrentVersion\\Schedule\\TaskCache\\Tasks\\{FD607F42-4541-418A-B812-05C32EBA8626}"@, hive_roots(Hive::Software), 0);
        } else if j == 2 {
            assert(starts_with("Microsoft\\Windows NT\\CurrentVersion\\Schedule\\TaskCache\\Tasks\\{E4FED5BC-D567-4044-9642-2EDADF7DE108}"@, "Microsoft\\"@)) by {
                reveal_strlit("Microsoft\\Windows NT\\CurrentVersion\\Schedule\\TaskCache\\Tasks\\{E4FED5BC-D567-4044-9642-2EDADF7DE108}");
                reveal_strlit("Microsoft\\");
                assert("Microsoft\\Windows NT\\CurrentVersion\\Schedule\\TaskCache\\Tasks\\{E4FED5BC-D567-4044-9642-2EDADF7DE108}"@.subrange(0, 10) =~= "Microsoft\\"@);
            }
            lemma_root("Microsoft\\Windows NT\\CurrentVersion\\Schedule\\TaskCache\\Tasks\\{E4FED5BC-D567-4044-9642-2EDADF7DE108}"@, hive_roots(Hive::Software), 0);
        } else if j == 3 {
            assert(starts_with("Microsoft\\Windows NT\\CurrentVersion\\Schedule\\TaskCache\\Tasks\\{E292525C-72F1-482C-8F35-C513FAA98DAE}"@, "Microsoft\\"@)) by {
                reveal_strlit("Microsoft\\Windows NT\\CurrentVersion\\Schedule\\TaskCache\\Tasks\\{E292525C-72F1-482C-8F35-C513FAA98DAE}");
                reveal_strlit("Microsoft\\");
                assert("Microsoft\\Windows NT\\CurrentVersion\\Schedule\\TaskCache\\Tasks\\{E292525C-72F1-482C-8F35-C513FAA98DAE}"@.subrange(0, 10) =~= "Microsoft\\"@);
            }
            lemma_root("Microsoft\\Windows NT\\CurrentVersion\\Schedule\\TaskCache\\Tasks\\{E292525C-72F1-482C-8F35-C513FAA98DAE}"@, hive_roots(Hive::Software), 0);
        } else if j == 4 {
            assert(starts_with("Microsoft\\Windows NT\\CurrentVersion\\Schedule\\TaskCache\\Tasks\\{3047C197-66F1-4523-BA92-6C955FEF9E4E}"@, "Microsoft\\"@)) by {
                reveal_strlit("Microsoft\\Windows NT\\CurrentVersion\\Schedule\\TaskCache\\Tasks\\{3047C197-66F1-4523-BA92-6C955FEF9E4E}");
                reveal_strlit("Microsoft\\");
                assert("Microsoft\\Windows NT\\CurrentVersion\\Schedule\\TaskCache\\Tasks\\{3047C197-66F1-4523-BA92-6C955FEF9E4E}"@.subrange(0, 10) =~= "Microsoft\\"@);
            }
            lemma_root("Microsoft\\Windows NT\\CurrentVersion\\Schedule\\TaskCache\\Tasks\\{3047C197-66F1-4523-BA92-6C955FEF9E4E}"@, hive_roots(Hive::Software), 0);
        } else if j == 5 {
            assert(starts_with("Microsoft\\Windows NT\\CurrentVersion\\Schedule\\TaskCache\\Tasks\\{A0C71CB8-E8F0-498A-901D-4EDA09E07FF4}"@, "Microsoft\\"@)) by {
                reveal_strlit("Microsoft\\Windows NT\\CurrentVersion\\Schedule\\TaskCache\\Tasks\\{A0C71CB8-E8F0-498A-901D-4EDA09E07FF4}");
                reveal_strlit("Microsoft\\");
                assert("Microsoft\\Windows NT\\CurrentVersion\\Schedule\\TaskCache\\Tasks\\{A0C71CB8-E8F0-498A-901D-4EDA09E07FF4}"@.subrange(0, 10) =~= "Microsoft\\"@);
            }
            lemma_root("Microsoft\\Windows NT\\CurrentVersion\\Schedule\\TaskCache\\Tasks\\{A0C71CB8-E8F0-498A-901D-4EDA09E07FF4}"@, hive_roots(Hive::Software), 0);
        } else if j == 6 {
            assert(starts_with("Microsoft\\Windows NT\\CurrentVersion\\Schedule\\TaskCache\\Tasks\\{4738DE7A-BCC1-4E2D-B1B0-CADB044BFA81}"@, "Microsoft\\"@)) by {
                reveal_strlit("Microsoft\\Windows NT\\CurrentVersion\\Schedule\\TaskCache\\Tasks\\{4738DE7A-BCC1-4E2D-B1B0-CADB044BFA81}");
                reveal_strlit("Microsoft\\");
                assert("Microsoft\\Windows NT\\CurrentVersion\\Schedule\\TaskCache\\Tasks\\{4738DE7A-BCC1-4E2D-B1B0-CADB044BFA81}"@.subrange(0, 10) =~= "Microsoft\\"@);
            }
            lemma_root("Microsoft\\Windows NT\\CurrentVersion\\Schedule\\TaskCache\\Tasks\\{4738DE7A-BCC1-4E2D-B1B0-CADB044BFA81}"@, hive_roots(Hive::Software), 0);
        } else if j == 7 {
            assert(starts_with("Microsoft\\Windows NT\\CurrentVersion\\Schedule\\TaskCache\\Tasks\\{6FAC31FA-4A85-4E64-BFD5-2154FF4594B3}"@, "Microsoft\\"@)) by {
                reveal_strlit("Microsoft\\Windows NT\\CurrentVersion\\Schedule\\TaskCache\\Tasks\\{6FAC31FA-4A85-4E64-BFD5-2154FF4594B3}");
                reveal_strlit("Microsoft\\");
                assert("Microsoft\\Windows NT\\CurrentVersion\\Schedule\\TaskCache\\Tasks\\{6FAC31FA-4A85-4E64-BFD5-2154FF4594B3}"@.subrange(0, 10) =~= "Microsoft\\"@);
            }
            lemma_root("Microsoft\\Windows NT\\CurrentVersion\\Schedule\\TaskCache\\Tasks\\{6FAC31FA-4A85-4E64-BFD5-2154FF4594B3}"@, hive_roots(Hive::Software), 0);
        } else if j == 8 {
            assert(starts_with("Microsoft\\Windows NT\\CurrentVersion\\Schedule\\TaskCache\\Tasks\\{FC931F16-B50A-472E-B061-B6F79A71EF59}"@, "Microsoft\\"@)) by {
                reveal_strlit("Microsoft\\Windows NT\\CurrentVersion\\Schedule\\TaskCache\\Tasks\\{FC931F16-B50A-472E-B061-B6F79A71EF59}");
                reveal_strlit("Microsoft\\");
                assert("Microsoft\\Windows NT\\CurrentVersion\\Schedule\\TaskCache\\Tasks\\{FC931F16-B50A-472E-B061-B6F79A71EF59}"@.subrange(0, 10) =~= "Microsoft\\"@);
            }
            lemma_root("Microsoft\\Windows NT\\CurrentVersion\\Schedule\\TaskCache\\Tasks\\{FC931F16-B50A-472E-B061-B6F79A71EF59}"@, hive_roots(Hive::Software), 0);
        } else if j == 9 {
            assert(starts_with("Microsoft\\Windows NT\\CurrentVersion\\Schedule\\TaskCache\\Tasks\\{0671EB05-7D95-4153-A32B-1426B9FE61DB}"@, "Microsoft\\"@)) by {
                reveal_strlit("Microsoft\\Windows NT\\CurrentVersion\\Schedule\\TaskCache\\Tasks\\{0671EB05-7D95-4153-A32B-1426B9FE61DB}");
                reveal_strlit("Microsoft\\");
                assert("Microsoft\\Windows NT\\CurrentVersion\\Schedule\\TaskCache\\Tasks\\{0671EB05-7D95-4153-A32B-1426B9FE61DB}"@.subrange(0, 10) =~= "Microsoft\\"@);
            }
            lemma_root("Microsoft\\Windows NT\\CurrentVersion\\Schedule\\TaskCache\\Tasks\\{0671EB05-7D95-4153-A32B-1426B9FE61DB}"@, hive_roots(Hive::Software), 0);
        } else if j == 10 {
            assert(starts_with("Microsoft\\Windows NT\\CurrentVersion\\Schedule\\TaskCache\\Tasks\\{0600DD45-FAF2-4131-A006-0B17509B9F78}"@, "Microsoft\\"@)) by {
                reveal_strlit("Microsoft\\Windows NT\\CurrentVersion\\Schedule\\TaskCache\\Tasks\\{0600DD45-FAF2-4131-A006-0B17509B9F78}");
                reveal_strlit("Microsoft\\");
                assert("Microsoft\\Windows NT\\CurrentVersion\\Schedule\\TaskCache\\Tasks\\{0600DD45-FAF2-4131-A006-0B17509B9F78}"@.subrange(0, 10) =~= "Microsoft\\"@);
            }
            lemma_root("Microsoft\\Windows NT\\CurrentVersion\\Schedule\\TaskCache\\Tasks\\{0600DD45-FAF2-4131-A006-0B17509B9F78}"@, hive_roots(Hive::Software), 0);
        }
    }
}

proof fn lemma_folders_fit(guids: Seq<Seq<char>>)
    ensures
        keys_fit(Hive::Software, folders_ops(guids)),
    decreases guids.len(),
{
    if guids.len() > 0 {
        lemma_folders_fit(guids.drop_last());
        let g = guids.last();
        let lit = "Microsoft\\Windows\\CurrentVersion\\Explorer\\MyComputer\\NameSpace\\"@;
        assert(starts_with(lit, "Microsoft\\"@)) by {
            reveal_strlit("Microsoft\\Windows\\CurrentVersion\\Explorer\\MyComputer\\NameSpace\\");
            reveal_strlit("Microsoft\\");
            assert(lit.subrange(0, 10) =~= "Microsoft\\"@);
        }
        lemma_microsoft_key(g, lit);
        assert(keys_fit(Hive::Software, folder_ops(g)));
        lemma_fit_concat(Hive::Software, folders_ops(guids.drop_last()), folder_ops(g));
    }
}

proof fn lemma_cbs_fit(pkgs: Seq<Seq<char>>)
    ensures
        keys_fit(Hive::Software, cbs_ops(pkgs)),
    decreases pkgs.len(),
{
    if pkgs.len() > 0 {
        lemma_cbs_fit(pkgs.drop_last());
        let p = pkgs.last();
        let lit = "Microsoft\\Windows\\CurrentVersion\\Component Based Servicing\\Packages"@;
        assert(starts_with(lit, "Microsoft\\"@)) by {
            reveal_strlit("Microsoft\\Windows\\CurrentVersion\\Component Based Servicing\\Packages");
            reveal_strlit("Microsoft\\");
            assert(lit.subrange(0, 10) =~= "Microsoft\\"@);
        }
        lemma_prefix_extends(lit, "Microsoft\\"@, seq!['\\']);
        lemma_microsoft_key(p, lit + seq!['\\']);
        lemma_prefix_extends(lit + seq!['\\'], "Microsoft\\"@, p);
        lemma_prefix_extends(cbs_key(p), "Microsoft\\"@, "\\Owners"@);
        lemma_prefix_extends(cbs_key(p), "Microsoft\\"@, "\\Updates"@);
        lemma_root(cbs_key(p) + "\\Owners"@, hive_roots(Hive::Software), 0);
        lemma_root(cbs_key(p) + "\\Updates"@, hive_roots(Hive::Software), 0);
        assert(keys_fit(Hive::Software, cbs_package_ops(p)));
        lemma_fit_concat(Hive::Software, cbs_ops(pkgs.drop_last()), cbs_package_ops(p));
    }
}

/// The Edge tweaks edit each hive only under its own top-level keys: the
/// `Microsoft`, `Policies` and `WOW6432Node` keys go to SOFTWARE, the
/// control set keys to SYSTEM, the user keys to a user hive.
pub proof fn law_edge_tweaks_in_their_hives(mount: Seq<char>)
    ensures
        edits_fit(mount, edge_registry_edits(mount)),
{
    lemma_edge_software_ops_fit();
    lemma_edge_system_ops_fit();
    lemma_edge_default_ops_fit();
    lemma_edge_ntuser_ops_fit();
    let e = edge_registry_edits(mount);
    assert(e[0].hive == hive_path(mount, Hive::Software));
    assert(e[1].hive == hive_path(mount, Hive::System));
    assert(e[2].hive == hive_path(mount, Hive::Default));
    assert(e[3].hive == hive_path(mount, Hive::NtUser));
}

/// The AI tweaks edit each hive only under its own top-level keys.
pub proof fn law_ai_tweaks_in_their_hives(mount: Seq<char>)
    ensures
        edits_fit(mount, ai_registry_edits(mount)),
{
    lemma_ai_software_ops_fit();
    lemma_ai_system_ops_fit();
    lemma_ai_ntuser_ops_fit();
    let e = ai_registry_edits(mount);
    assert(e[0].hive == hive_path(mount, Hive::Software));
    assert(e[1].hive == hive_path(mount, Hive::System));
    assert(e[2].hive == hive_path(mount, Hive::NtUser));
}

/// The privacy tweaks edit each hive only under its own top-level keys:
/// in particular the service start values under `ControlSet001\Services`
/// go to the SYSTEM hive.
pub proof fn law_privacy_tweaks_in_their_hives(mount: Seq<char>)
    ensures
        edits_fit(mount, privacy_registry_edits(mount)),
{
    lemma_privacy_software_ops_fit();
    lemma_privacy_system_ops_fit();
    lemma_privacy_ntuser_ops_fit();
    let e = privacy_registry_edits(mount);
    assert(e[0].hive == hive_path(mount, Hive::Software));
    assert(e[1].hive == hive_path(mount, Hive::System));
    assert(e[2].hive == hive_path(mount, Hive::NtUser));
}

/// The TPM bypass edits each hive only under its own top-level keys: the
/// `Setup` lab configuration goes to SYSTEM, the `Microsoft` compatibility
/// keys to SOFTWARE.
pub proof fn law_tpm_bypass_in_their_hives(mount: Seq<char>)
    ensures
        edits_fit(mount, tpm_bypass_edits(mount)),
{
    lemma_tpm_system_ops_fit();
    lemma_tpm_software_ops_fit();
    lemma_tpm_default_ops_fit();
    lemma_tpm_ntuser_ops_fit();
    let e = tpm_bypass_edits(mount);
    assert(e[0].hive == hive_path(mount, Hive::System));
    assert(e[1].hive == hive_path(mount, Hive::Software));
    assert(e[2].hive == hive_path(mount, Hive::Default));
    assert(e[3].hive == hive_path(mount, Hive::NtUser));
}

/// The task, shell folder, Game Bar service and AI servicing package edits
/// touch only keys of the hive they go to.
pub proof fn law_other_tweaks_in_their_hives(mount: Seq<char>, guids: Seq<Seq<char>>, pkgs: Seq<Seq<char>>)
    ensures
        keys_fit(Hive::Software, task_ops()),
        keys_fit(Hive::Software, folders_ops(guids)),
        keys_fit(Hive::System, gamebar_system_ops()),
        keys_fit(Hive::Software, cbs_ops(pkgs)),
{
    lemma_task_ops_fit();
    lemma_folders_fit(guids);
    lemma_gamebar_system_ops_fit();
    lemma_cbs_fit(pkgs);
}

proof fn lemma_roots_differ(k: Seq<char>, r1: Seq<char>, r2: Seq<char>, d: int)
    requires
        0 <= d < r1.len(),
        d < r2.len(),
        r1[d] != r2[d],
    ensures
        !(starts_with(k, r1) && starts_with(k, r2)),
{
    if starts_with(k, r1) && starts_with(k, r2) {
        assert(k.subrange(0, r1.len() as int)[d] == k[d]);
        assert(k.subrange(0, r2.len() as int)[d] == k[d]);
    }
}

/// No key lies under top-level keys of two different hives of SYSTEM,
/// SOFTWARE and the user hives, so the keys an edit touches decide which
/// of them it belongs to.
pub proof fn law_hive_roots_disjoint(k: Seq<char>)
    ensures
        !(starts_any(k, hive_roots(Hive::System)) && starts_any(k, hive_roots(Hive::Software))),
        !(starts_any(k, hive_roots(Hive::System)) && starts_any(k, hive_roots(Hive::NtUser))),
        !(starts_any(k, hive_roots(Hive::Software)) && starts_any(k, hive_roots(Hive::NtUser))),
{
    if starts_with(k, hive_roots(Hive::System)[0]) && starts_with(k, hive_roots(Hive::Software)[0]) {
        reveal_strlit("ControlSet001\\");
        reveal_strlit("Microsoft\\");
        lemma_roots_differ(k, "ControlSet001\\"@, "Microsoft\\"@, 0);
    }
    if starts_with(k, hive_roots(Hive::System)[0]) && starts_with(k, hive_roots(Hive::Software)[1]) {
        reveal_strlit("ControlSet001\\");
        reveal_strlit("Policies\\");
        lemma_roots_differ(k, "ControlSet001\\"@, "Policies\\"@, 0);
    }
    if starts_with(k, hive_roots(Hive::System)[0]) && starts_with(k, hive_roots(Hive::Software)[2]) {
        reveal_strlit("ControlSet001\\");
        reveal_strlit("WOW6432Node\\");
        lemma_roots_differ(k, "ControlSet001\\"@, "WOW6432Node\\"@, 0);
    }
    if starts_with(k, hive_roots(Hive::System)[1]) && starts_with(k, hive_roots(Hive::Software)[0]) {
        reveal_strlit("CurrentControlSet\\");
        reveal_strlit("Microsoft\\");
        lemma_roots_differ(k, "CurrentControlSet\\"@, "Microsoft\\"@, 0);
    }
    if starts_with(k, hive_roots(Hive::System)[1]) && starts_with(k, hive_roots(Hive::Software)[1]) {
        reveal_strlit("CurrentControlSet\\");
        reveal_strlit("Policies\\");
        lemma_roots_differ(k, "CurrentControlSet\\"@, "Policies\\"@, 0);
    }
    if starts_with(k, hive_roots(Hive::System)[1]) && starts_with(k, hive_roots(Hive::Software)[2]) {
        reveal_strlit("CurrentControlSet\\");
        reveal_strlit("WOW6432Node\\");
        lemma_roots_differ(k, "CurrentControlSet\\"@, "WOW6432Node\\"@, 0);
    }
    if starts_with(k, hive_roots(Hive::System)[2]) && starts_with(k, hive_roots(Hive::Software)[0]) {
        reveal_strlit("Setup\\");
        reveal_strlit("Microsoft\\");
        lemma_roots_differ(k, "Setup\\"@, "Microsoft\\"@, 0);
    }
    if starts_with(k, hive_roots(Hive::System)[2]) && starts_with(k, hive_roots(Hive::Software)[1]) {
        reveal_strlit("Setup\\");
        reveal_strlit("Policies\\");
        lemma_roots_differ(k, "Setup\\"@, "Policies\\"@, 0);
    }
    if starts_with(k, hive_roots(Hive::System)[2]) && starts_with(k, hive_roots(Hive::Software)[2]) {
        reveal_strlit("Setup\\");
        reveal_strlit("WOW6432Node\\");
        lemma_roots_differ(k, "Setup\\"@, "WOW6432Node\\"@, 0);
    }
    if starts_with(k, hive_roots(Hive::System)[0]) && starts_with(k, hive_roots(Hive::NtUser)[0]) {
        reveal_strlit("ControlSet001\\");
        reveal_strlit("Software\\");
        lemma_roots_differ(k, "ControlSet001\\"@, "Software\\"@, 0);
    }
    if starts_with(k, hive_roots(Hive::System)[0]) && starts_with(k, hive_roots(Hive::NtUser)[1]) {
        reveal_strlit("ControlSet001\\");
        reveal_strlit("SOFTWARE\\");
        lemma_roots_differ(k, "ControlSet001\\"@, "SOFTWARE\\"@, 0);
    }
    if starts_with(k, hive_roots(Hive::System)[0]) && starts_with(k, hive_roots(Hive::NtUser)[2]) {
        reveal_strlit("ControlSet001\\");
        reveal_strlit("Control Panel\\");
        lemma_roots_differ(k, "ControlSet001\\"@, "Control Panel\\"@, 7);
    }
    if starts_with(k, hive_roots(Hive::System)[0]) && starts_with(k, hive_roots(Hive::NtUser)[3]) {
        reveal_strlit("ControlSet001\\");
        reveal_strlit("System\\");
        lemma_roots_differ(k, "ControlSet001\\"@, "System\\"@, 0);
    }
    if starts_with(k, hive_roots(Hive::System)[1]) && starts_with(k, hive_roots(Hive::NtUser)[0]) {
        reveal_strlit("CurrentControlSet\\");
        reveal_strlit("Software\\");
        lemma_roots_differ(k, "CurrentControlSet\\"@, "Software\\"@, 0);
    }
    if starts_with(k, hive_roots(Hive::System)[1]) && starts_with(k, hive_roots(Hive::NtUser)[1]) {
        reveal_strlit("CurrentControlSet\\");
        reveal_strlit("SOFTWARE\\");
        lemma_roots_differ(k, "CurrentControlSet\\"@, "SOFTWARE\\"@, 0);
    }
    if starts_with(k, hive_roots(Hive::System)[1]) && starts_with(k, hive_roots(Hive::NtUser)[2]) {
        reveal_strlit("CurrentControlSet\\");
        reveal_strlit("Control Panel\\");
        lemma_roots_differ(k, "CurrentControlSet\\"@, "Control Panel\\"@, 1);
    }
    if starts_with(k, hive_roots(Hive::System)[1]) && starts_with(k, hive_roots(Hive::NtUser)[3]) {
        reveal_strlit("CurrentControlSet\\");
        reveal_strlit("System\\");
        lemma_roots_differ(k, "CurrentControlSet\\"@, "System\\"@, 0);
    }
    if starts_with(k, hive_roots(Hive::System)[2]) && starts_with(k, hive_roots(Hive::NtUser)[0]) {
        reveal_strlit("Setup\\");
        reveal_strlit("Software\\");
        lemma_roots_differ(k, "Setup\\"@, "Software\\"@, 1);
    }
    if starts_with(k, hive_roots(Hive::System)[2]) && starts_with(k, hive_roots(Hive::NtUser)[1]) {
        reveal_strlit("Setup\\");
        reveal_strlit("SOFTWARE\\");
        lemma_roots_differ(k, "Setup\\"@, "SOFTWARE\\"@, 1);
    }
    if starts_with(k, hive_roots(Hive::System)[2]) && starts_with(k, hive_roots(Hive::NtUser)[2]) {
        reveal_strlit("Setup\\");
        reveal_strlit("Control Panel\\");
        lemma_roots_differ(k, "Setup\\"@, "Control Panel\\"@, 0);
    }
    if starts_with(k, hive_roots(Hive::System)[2]) && starts_with(k, hive_roots(Hive::NtUser)[3]) {
        reveal_strlit("Setup\\");
        reveal_strlit("System\\");
        lemma_roots_differ(k, "Setup\\"@, "System\\"@, 1);
    }
    if starts_with(k, hive_roots(Hive::Software)[0]) && starts_with(k, hive_roots(Hive::NtUser)[0]) {
        reveal_strlit("Microsoft\\");
        reveal_strlit("Software\\");
        lemma_roots_differ(k, "Microsoft\\"@, "Software\\"@, 0);
    }
    if starts_with(k, hive_roots(Hive::Software)[0]) && starts_with(k, hive_roots(Hive::NtUser)[1]) {
        reveal_strlit("Microsoft\\");
        reveal_strlit("SOFTWARE\\");
        lemma_roots_differ(k, "Microsoft\\"@, "SOFTWARE\\"@, 0);
    }
    if starts_with(k, hive_roots(Hive::Software)[0]) && starts_with(k, hive_roots(Hive::NtUser)[2]) {
        reveal_strlit("Microsoft\\");
        reveal_strlit("Control Panel\\");
        lemma_roots_differ(k, "Microsoft\\"@, "Control Panel\\"@, 0);
    }
    if starts_with(k, hive_roots(Hive::Software)[0]) && starts_with(k, hive_roots(Hive::NtUser)[3]) {
        reveal_strlit("Microsoft\\");
        reveal_strlit("System\\");
        lemma_roots_differ(k, "Microsoft\\"@, "System\\"@, 0);
    }
    if starts_with(k, hive_roots(Hive::Software)[1]) && starts_with(k, hive_roots(Hive::NtUser)[0]) {
        reveal_strlit("Policies\\");
        reveal_strlit("Software\\");
        lemma_roots_differ(k, "Policies\\"@, "Software\\"@, 0);
    }
    if starts_with(k, hive_roots(Hive::Software)[1]) && starts_with(k, hive_roots(Hive::NtUser)[1]) {
        reveal_strlit("Policies\\");
        reveal_strlit("SOFTWARE\\");
        lemma_roots_differ(k, "Policies\\"@, "SOFTWARE\\"@, 0);
    }
    if starts_with(k, hive_roots(Hive::Software)[1]) && starts_with(k, hive_roots(Hive::NtUser)[2]) {
        reveal_strlit("Policies\\");
        reveal_strlit("Control Panel\\");
        lemma_roots_differ(k, "Policies\\"@, "Control Panel\\"@, 0);
    }
    if starts_with(k, hive_roots(Hive::Software)[1]) && starts_with(k, hive_roots(Hive::NtUser)[3]) {
        reveal_strlit("Policies\\");
        reveal_strlit("System\\");
        lemma_roots_differ(k, "Policies\\"@, "System\\"@, 0);
    }
    if starts_with(k, hive_roots(Hive::Software)[2]) && starts_with(k, hive_roots(Hive::NtUser)[0]) {
        reveal_strlit("WOW6432Node\\");
        reveal_strlit("Software\\");
        lemma_roots_differ(k, "WOW6432Node\\"@, "Software\\"@, 0);
    }
    if starts_with(k, hive_roots(Hive::Software)[2]) && starts_with(k, hive_roots(Hive::NtUser)[1]) {
        reveal_strlit("WOW6432Node\\");
        reveal_strlit("SOFTWARE\\");
        lemma_roots_differ(k, "WOW6432Node\\"@, "SOFTWARE\\"@, 0);
    }
    if starts_with(k, hive_roots(Hive::Software)[2]) && starts_with(k, hive_roots(Hive::NtUser)[2]) {
        reveal_strlit("WOW6432Node\\");
        reveal_strlit("Control Panel\\");
        lemma_roots_differ(k, "WOW6432Node\\"@, "Control Panel\\"@, 0);
    }
    if starts_with(k, hive_roots(Hive::Software)[2]) && starts_with(k, hive_roots(Hive::NtUser)[3]) {
        reveal_strlit("WOW6432Node\\");
        reveal_strlit("System\\");
        lemma_roots_differ(k, "WOW6432Node\\"@, "System\\"@, 0);
    }
}

} // verus!
