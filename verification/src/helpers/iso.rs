//! The arguments of the ISO extraction and repacking commands.
use vstd::prelude::*;
use crate::text::{owned, views};

verus! {

/// The arguments of `7z` that extract `iso` into `dest`.
pub fn extract_args(iso: &str, dest: &str) -> (r: Vec<String>)
    ensures
        views(r@) == seq!["x"@, iso@, "-o"@ + dest@],
{
    let mut out_flag = owned("-o");
    out_flag.append(dest);
    let r: Vec<String> = vec![owned("x"), owned(iso), out_flag];
    assert(views(r@) =~= seq!["x"@, iso@, "-o"@ + dest@]);
    r
}

/// A permission mode with the owner's write bit set, as the extracted
/// tree is made writable.
pub fn user_writable_mode(mode: u32) -> (r: u32)
    ensures
        r == mode | 0o200,
{
    mode | 0o200
}

/// Setting the owner's write bit leaves every other bit as it was, and is
/// idempotent.
pub proof fn law_user_writable_mode(mode: u32)
    ensures
        (mode | 0o200u32) & 0o200u32 == 0o200u32,
        (mode | 0o200u32) & !0o200u32 == mode & !0o200u32,
        ((mode | 0o200u32) | 0o200u32) == (mode | 0o200u32),
{
    assert((mode | 0o200u32) & 0o200u32 == 0o200u32) by (bit_vector);
    assert((mode | 0o200u32) & !0o200u32 == mode & !0o200u32) by (bit_vector);
    assert(((mode | 0o200u32) | 0o200u32) == (mode | 0o200u32)) by (bit_vector);
}

/// Where Windows ISOs keep their EFI boot image, in the order they are
/// tried, relative to the ISO root.
pub open spec fn efi_candidates() -> Seq<Seq<char>> {
    seq![
        "efi/microsoft/boot/efisys.bin"@,
        "EFI/Microsoft/Boot/efisys.bin"@,
        "efi/boot/bootx64.efi"@,
        "EFI/Boot/bootx64.efi"@,
    ]
}

/// The EFI boot image candidates; the program tells
/// [`find_efi_image`] which of them exist.
pub fn efi_image_candidates() -> (r: Vec<String>)
    ensures
        views(r@) == efi_candidates(),
{
    let r: Vec<String> = vec![
        owned("efi/microsoft/boot/efisys.bin"),
        owned("EFI/Microsoft/Boot/efisys.bin"),
        owned("efi/boot/bootx64.efi"),
        owned("EFI/Boot/bootx64.efi"),
    ];
    assert(views(r@) =~= efi_candidates());
    r
}

/// The first candidate from `k` on that exists, where `present[i]` tells
/// whether candidate `i` exists.
pub open spec fn first_present(present: Seq<bool>, k: int) -> Option<Seq<char>>
    decreases 4 - k,
{
    if k >= 4 || k < 0 {
        None
    } else if k < present.len() && present[k] {
        Some(efi_candidates()[k])
    } else {
        first_present(present, k + 1)
    }
}

/// The EFI boot image to use, relative to the ISO root: the first
/// candidate of [`efi_image_candidates`] that exists (`present[i]` tells
/// whether candidate `i` does; missing entries count as absent).
pub fn find_efi_image(present: &Vec<bool>) -> (r: Option<String>)
    ensures
        match (r, first_present(present@, 0)) {
            (Some(s), Some(t)) => s@ == t,
            (None, None) => true,
            _ => false,
        },
{
    let cands = efi_image_candidates();
    assert(cands@.len() == views(cands@).len());
    let mut k: usize = 0;
    while k < 4
        invariant
            k <= 4,
            cands@.len() == 4,
            views(cands@) == efi_candidates(),
            first_present(present@, 0) == first_present(present@, k as int),
        decreases 4 - k,
    {
        if k < present.len() && present[k] {
            assert(views(cands@)[k as int] == cands@[k as int]@);
            return Some(cands[k].clone());
        }
        k = k + 1;
    }
    None
}

/// Which boot files the extracted ISO tree holds.
#[derive(Debug)]
pub struct IsoLayout {
    /// An `efi` or `EFI` directory exists.
    pub has_efi: bool,
    /// `boot.catalog` exists.
    pub boot_catalog: bool,
    /// `boot/etfsboot.com` exists.
    pub boot_etfsboot: bool,
    /// `Boot/etfsboot.com` exists.
    pub boot_etfsboot_upper: bool,
    /// For each EFI image candidate, whether it exists.
    pub efi_present: Vec<bool>,
}

/// The options every repacked ISO gets.
pub open spec fn base_repack_args() -> Seq<Seq<char>> {
    seq![
        "-as"@,
        "mkisofs"@,
        "-iso-level"@,
        "3"@,
        "-full-iso9660-filenames"@,
        "-J"@,
        "-joliet-long"@,
        "-untranslated-filenames"@,
        "-relaxed-filenames"@,
        "-allow-lowercase"@,
        "-volid"@,
        "WINDOWS"@,
    ]
}

/// The BIOS boot image, relative to the ISO root.
pub open spec fn etfs_image(l: IsoLayout) -> Option<Seq<char>> {
    if l.boot_etfsboot {
        Some("boot/etfsboot.com"@)
    } else if l.boot_etfsboot_upper {
        Some("Boot/etfsboot.com"@)
    } else {
        None
    }
}

/// The boot catalog to re-inject, relative to the ISO root: the tree's
/// own `boot.catalog` when it has one. Without one, xorriso places the
/// catalog itself, so no path is given and the BIOS boot image is never
/// named as the catalog.
pub open spec fn boot_catalog(l: IsoLayout) -> Option<Seq<char>> {
    if l.boot_catalog {
        Some("boot.catalog"@)
    } else {
        None
    }
}

/// The arguments of `xorriso` that build the ISO `output` from the tree
/// `staging`: the base options, BIOS boot options when a BIOS boot image
/// exists, EFI boot options when the tree has an EFI directory and an EFI
/// boot image, the boot catalog when there is one, then output and source.
pub open spec fn repack_arg_list(staging: Seq<char>, output: Seq<char>, l: IsoLayout) -> Seq<Seq<char>> {
    base_repack_args() + match etfs_image(l) {
        Some(b) => seq![
            "-b"@,
            b,
            "-no-emul-boot"@,
            "-boot-load-size"@,
            "8"@,
            "-boot-info-table"@,
        ],
        None => Seq::empty(),
    } + match (l.has_efi, first_present(l.efi_present@, 0)) {
        (true, Some(e)) => seq!["--efi-boot"@, e, "--efi-boot-part"@, "--efi-boot-image"@],
        _ => Seq::empty(),
    } + match boot_catalog(l) {
        Some(c) => seq!["-c"@, c],
        None => Seq::empty(),
    } + seq!["-o"@, output, staging]
}

fn push_all(v: &mut Vec<String>, items: Vec<String>)
    ensures
        views(final(v)@) == views(old(v)@) + views(items@),
{
    let mut items = items;
    let ghost a = views(v@);
    let ghost b = views(items@);
    v.append(&mut items);
    assert(views(v@) =~= a + b);
}

/// The arguments of `xorriso` that repack the tree `staging` into the
/// bootable ISO `output`.
pub fn repack_args(staging: &str, output: &str, layout: &IsoLayout) -> (r: Vec<String>)
    ensures
        views(r@) == repack_arg_list(staging@, output@, *layout),
        boot_catalog(*layout) matches Some(c) ==> etfs_image(*layout) matches Some(b) ==> c != b,
{
    proof {
        law_catalog_keeps_boot_image(*layout);
    }
    let mut args: Vec<String> = vec![
        owned("-as"),
        owned("mkisofs"),
        owned("-iso-level"),
        owned("3"),
        owned("-full-iso9660-filenames"),
        owned("-J"),
        owned("-joliet-long"),
        owned("-untranslated-filenames"),
        owned("-relaxed-filenames"),
        owned("-allow-lowercase"),
        owned("-volid"),
        owned("WINDOWS"),
    ];
    assert(views(args@) =~= base_repack_args());
    let ghost a0 = views(args@);
    let etfs: Option<&str> = if layout.boot_etfsboot {
        Some("boot/etfsboot.com")
    } else if layout.boot_etfsboot_upper {
        Some("Boot/etfsboot.com")
    } else {
        None
    };
    match etfs {
        Some(b) => {
            let more: Vec<String> = vec![
                owned("-b"),
                owned(b),
                owned("-no-emul-boot"),
                owned("-boot-load-size"),
                owned("8"),
                owned("-boot-info-table"),
            ];
            push_all(&mut args, more);
        },
        None => {},
    }
    let ghost a1 = views(args@);
    assert(a1 =~= a0 + match etfs_image(*layout) {
        Some(b) => seq![
            "-b"@,
            b,
            "-no-emul-boot"@,
            "-boot-load-size"@,
            "8"@,
            "-boot-info-table"@,
        ],
        None => Seq::empty(),
    });
    if layout.has_efi {
        match find_efi_image(&layout.efi_present) {
            Some(e) => {
                let more: Vec<String> = vec![
                    owned("--efi-boot"),
                    e,
                    owned("--efi-boot-part"),
                    owned("--efi-boot-image"),
                ];
                push_all(&mut args, more);
            },
            None => {},
        }
    }
    let ghost a2 = views(args@);
    assert(a2 =~= a1 + match (layout.has_efi, first_present(layout.efi_present@, 0)) {
        (true, Some(e)) => seq!["--efi-boot"@, e, "--efi-boot-part"@, "--efi-boot-image"@],
        _ => Seq::empty(),
    });
    let cat: Option<&str> = if layout.boot_catalog {
        Some("boot.catalog")
    } else {
        None
    };
    match cat {
        Some(c) => {
            let more: Vec<String> = vec![owned("-c"), owned(c)];
            push_all(&mut args, more);
        },
        None => {},
    }
    let ghost a3 = views(args@);
    assert(a3 =~= a2 + match boot_catalog(*layout) {
        Some(c) => seq!["-c"@, c],
        None => Seq::empty(),
    });
    let tail: Vec<String> = vec![owned("-o"), owned(output), owned(staging)];
    push_all(&mut args, tail);
    assert(views(args@) =~= repack_arg_list(staging@, output@, *layout));
    args
}

/// The boot catalog given to xorriso is never the BIOS boot image, so
/// the BIOS boot entry of the source ISO is kept.
pub proof fn law_catalog_keeps_boot_image(l: IsoLayout)
    ensures
        boot_catalog(l) matches Some(c) ==> etfs_image(l) matches Some(b) ==> c != b,
{
    reveal_strlit("boot.catalog");
    reveal_strlit("boot/etfsboot.com");
    reveal_strlit("Boot/etfsboot.com");
    assert("boot.catalog"@.len() != "boot/etfsboot.com"@.len());
    assert("boot.catalog"@.len() != "Boot/etfsboot.com"@.len());
}

/// The EFI boot image chosen is a candidate that exists, and no earlier
/// candidate exists.
pub proof fn law_efi_image_exists(present: Seq<bool>, k: int)
    requires
        0 <= k <= 4,
    ensures
        first_present(present, k) matches Some(e) ==> exists|i: int|
            k <= i < 4 && i < present.len() && present[i] && #[trigger] efi_candidates()[i] == e
                && forall|j: int| k <= j < i ==> !(j < present.len() && present[j]),
    decreases 4 - k,
{
    if k < 4 {
        law_efi_image_exists(present, k + 1);
        if k < present.len() && present[k] {
            assert(efi_candidates()[k] == efi_candidates()[k]);
        }
    }
}

} // verus!
