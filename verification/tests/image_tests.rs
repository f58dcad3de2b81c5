use win_debloat::helpers::cli::{debloat_steps, staging_layout, step_label, Cli, Step};
use win_debloat::helpers::iso::{efi_image_candidates, extract_args, find_efi_image, repack_args, user_writable_mode, IsoLayout};
use win_debloat::helpers::wim::{choose_edition, info_args, mount_args, parse_wim_info, sync_args, unmount_args};

const LISTING: &str = "WIM Information:\n----------------\nPath:           /s/sources/install.wim\nImage Count:    2\nBoot Index:     0\n\nAvailable Images:\n-----------------\nIndex:                  1\nName:                   Windows 11 Home\nDescription:            Windows 11 Home\n\nIndex:                  2\nName:                   Windows 11 Pro\r\nDescription:            Windows 11 Pro\n";

#[test]
fn listing_parses_images() {
    let images = parse_wim_info(LISTING);
    assert_eq!(images, vec![(1, "Windows 11 Home".to_string()), (2, "Windows 11 Pro".to_string())]);
}

#[test]
fn listing_edge_cases() {
    assert!(parse_wim_info("").is_empty());
    assert!(parse_wim_info("Index: 3\n").is_empty());
    assert_eq!(parse_wim_info("Name: A\nIndex: 3\n"), vec![]);
    assert_eq!(parse_wim_info("Index: 3\nName: A"), vec![(3, "A".to_string())]);
    assert_eq!(parse_wim_info("Index: x\nName: A\nIndex: 4\nName: B\n"), vec![(4, "B".to_string())]);
    assert_eq!(parse_wim_info("Index: 1\nName: A\nName: B\n"), vec![(1, "B".to_string())]);
    assert_eq!(parse_wim_info("Index: 1\nIndex: 2\nName: C"), vec![(2, "C".to_string())]);
}

#[test]
fn edition_choice() {
    let images = parse_wim_info(LISTING);
    assert_eq!(choose_edition(&images, "windows 11 PRO"), (2, true));
    assert_eq!(choose_edition(&images, "Windows 11 Home"), (1, true));
    assert_eq!(choose_edition(&images, "Windows 11 Education"), (1, false));
    assert_eq!(choose_edition(&vec![], "x"), (1, false));
}

#[test]
fn wim_command_arguments() {
    assert_eq!(info_args("/w.wim"), vec!["info", "/w.wim"]);
    assert_eq!(mount_args("/w.wim", 12, "/mnt"), vec!["mountrw", "/w.wim", "12", "/mnt"]);
    assert_eq!(unmount_args("/mnt"), vec!["unmount", "/mnt", "--commit"]);
    assert_eq!(sync_args("/stage"), vec!["-f", "/stage"]);
}

#[test]
fn iso_extraction_arguments() {
    assert_eq!(extract_args("/w.iso", "/stage"), vec!["x", "/w.iso", "-o/stage"]);
    assert_eq!(user_writable_mode(0o444), 0o644);
    assert_eq!(user_writable_mode(0o755), 0o755);
}

#[test]
fn efi_image_choice() {
    assert_eq!(efi_image_candidates()[0], "efi/microsoft/boot/efisys.bin");
    assert_eq!(find_efi_image(&vec![false, true, true, false]), Some("EFI/Microsoft/Boot/efisys.bin".to_string()));
    assert_eq!(find_efi_image(&vec![false, false, false, true]), Some("EFI/Boot/bootx64.efi".to_string()));
    assert_eq!(find_efi_image(&vec![false, false]), None);
    assert_eq!(find_efi_image(&vec![]), None);
}

fn base() -> Vec<&'static str> {
    vec!["-as", "mkisofs", "-iso-level", "3", "-full-iso9660-filenames", "-J", "-joliet-long", "-untranslated-filenames", "-relaxed-filenames", "-allow-lowercase", "-volid", "WINDOWS"]
}

#[test]
fn repack_full_layout() {
    let layout = IsoLayout { has_efi: true, boot_catalog: false, boot_etfsboot: true, boot_etfsboot_upper: false, efi_present: vec![true, false, false, false] };
    let mut expected = base();
    expected.extend(["-b", "boot/etfsboot.com", "-no-emul-boot", "-boot-load-size", "8", "-boot-info-table"]);
    expected.extend(["--efi-boot", "efi/microsoft/boot/efisys.bin", "--efi-boot-part", "--efi-boot-image"]);
    expected.extend(["-o", "/out.iso", "/stage"]);
    assert_eq!(repack_args("/stage", "/out.iso", &layout), expected);
}

#[test]
fn repack_minimal_layouts() {
    let layout = IsoLayout { has_efi: false, boot_catalog: false, boot_etfsboot: false, boot_etfsboot_upper: false, efi_present: vec![true, true, true, true] };
    let mut expected = base();
    expected.extend(["-o", "/out.iso", "/stage"]);
    assert_eq!(repack_args("/stage", "/out.iso", &layout), expected);
    let layout = IsoLayout { has_efi: true, boot_catalog: true, boot_etfsboot: false, boot_etfsboot_upper: true, efi_present: vec![] };
    let mut expected = base();
    expected.extend(["-b", "Boot/etfsboot.com", "-no-emul-boot", "-boot-load-size", "8", "-boot-info-table"]);
    expected.extend(["-c", "boot.catalog", "-o", "o", "s"]);
    assert_eq!(repack_args("s", "o", &layout), expected);
}

fn cli(on: bool) -> Cli {
    Cli {
        iso: "windows.iso".into(),
        edition: "Windows 11 Pro".into(),
        output: "output.iso".into(),
        appx: on,
        capabilities: on,
        onedrive: on,
        edge: on,
        ai: on,
        tpm_bypass: on,
        language: "en-US".into(),
        keep_staging: false,
        staging_dir: None,
        test: false,
    }
}

#[test]
fn steps_for_all_options() {
    assert_eq!(
        debloat_steps(&cli(true)),
        vec![Step::Appx, Step::Capabilities, Step::CapabilityPackages, Step::OneDrive, Step::Edge, Step::Ai, Step::TpmBypass, Step::Privacy, Step::UserFolders, Step::Gamebar, Step::Tasks]
    );
    assert_eq!(debloat_steps(&cli(false)), vec![Step::Privacy, Step::UserFolders, Step::Gamebar, Step::Tasks]);
    let mut c = cli(false);
    c.edge = true;
    assert_eq!(debloat_steps(&c), vec![Step::Edge, Step::Privacy, Step::UserFolders, Step::Gamebar, Step::Tasks]);
}

#[test]
fn step_labels() {
    assert_eq!(step_label(Step::Appx), "AppX removal");
    assert_eq!(step_label(Step::CapabilityPackages), "Capabilities removal");
    assert_eq!(step_label(Step::Tasks), "Task tweaks");
}

#[test]
fn staging_paths() {
    let l = staging_layout("/tmp/x");
    assert_eq!(l.staging, "/tmp/x/iso_staging");
    assert_eq!(l.mount_dir, "/tmp/x/wim_mount");
    assert_eq!(l.work_wim, "/tmp/x/install_work.wim");
    assert_eq!(l.install_wim, "/tmp/x/iso_staging/sources/install.wim");
}
