use sysforge::boot::efi::parse_efibootmgr;
use sysforge::error::SysforgeError;
use sysforge::handlers::{remove_target, typed_confirmed};
use sysforge::ipc::client::no_daemon_answering;
use sysforge::power::confirm_required;
use sysforge::windows::checklist::IsoFile;
use sysforge::windows::flow::{
    bootnext_plan, iso_already_copied, iso_choice, progress_report, unattend_target, ventoy_mount_of, wipe_confirmed,
    BootNextPlan,
};
use sysforge::windows::media::RemovableMedia;

fn medium(name: &str, mounted_at: Option<&str>, is_ventoy: bool) -> RemovableMedia {
    RemovableMedia {
        name: name.to_string(),
        path: format!("/dev/{name}"),
        size_bytes: 32000000000,
        fstype: Some("exfat".to_string()),
        mounted_at: mounted_at.map(|s| s.to_string()),
        is_ventoy,
        model: None,
    }
}

fn iso(path: &str, name: &str, win11: bool) -> IsoFile {
    IsoFile { path: path.to_string(), name: name.to_string(), size_bytes: 6000000000, looks_like_windows11: win11 }
}

#[test]
fn wipe_needs_the_exact_word() {
    assert!(wipe_confirmed("APAGAR\n"));
    assert!(wipe_confirmed("  APAGAR  "));
    assert!(!wipe_confirmed("apagar\n"));
    assert!(!wipe_confirmed("\n"));
    assert!(typed_confirmed("0003\n", "0003"));
    assert!(!typed_confirmed("0004\n", "0003"));
}

#[test]
fn unattend_goes_to_ventoy_root_else_downloads() {
    let ventoy = Some("/media/u/Ventoy".to_string());
    let home = Some("/home/u".to_string());
    assert_eq!(unattend_target(&ventoy, &home).unwrap(), "/media/u/Ventoy/autounattend.xml");
    assert_eq!(unattend_target(&None, &home).unwrap(), "/home/u/Downloads/autounattend.xml");
    let e = unattend_target(&None, &None).unwrap_err();
    assert_eq!(e.code, "SF-IO-002");
    assert_eq!(e.message, "HOME não definido");
}

#[test]
fn ventoy_mount_is_the_first_ventoy_stick() {
    let media = vec![
        medium("sdb", Some("/media/u/DATA"), false),
        medium("sdc", Some("/media/u/Ventoy"), true),
        medium("sdd", Some("/media/u/Ventoy2"), true),
    ];
    assert_eq!(ventoy_mount_of(&media).as_deref(), Some("/media/u/Ventoy"));
    let unmounted_first = vec![medium("sdc", None, true), medium("sdd", Some("/media/u/Ventoy2"), true)];
    assert_eq!(ventoy_mount_of(&unmounted_first), None);
    assert_eq!(ventoy_mount_of(&vec![medium("sdb", Some("/media/u/DATA"), false)]), None);
}

#[test]
fn iso_choice_prefers_explicit_then_first_windows11() {
    let isos = vec![iso("/d/ubuntu.iso", "ubuntu.iso", false), iso("/d/Win11_24H2.iso", "Win11_24H2.iso", true)];
    assert_eq!(
        iso_choice(&Some("/x/custom.iso".to_string()), &isos),
        Some(("/x/custom.iso".to_string(), "custom.iso".to_string()))
    );
    assert_eq!(iso_choice(&None, &isos), Some(("/d/Win11_24H2.iso".to_string(), "Win11_24H2.iso".to_string())));
    assert_eq!(iso_choice(&None, &vec![iso("/d/ubuntu.iso", "ubuntu.iso", false)]), None);
}

#[test]
fn copy_skipped_only_for_same_nonzero_size() {
    assert!(iso_already_copied(100, 100));
    assert!(!iso_already_copied(0, 0));
    assert!(!iso_already_copied(100, 99));
}

#[test]
fn progress_reported_every_five_points() {
    assert_eq!(progress_report(4, 100, 0), None);
    assert_eq!(progress_report(5, 100, 0), Some(5));
    assert_eq!(progress_report(9, 100, 5), None);
    assert_eq!(progress_report(37, 100, 5), Some(37));
    assert_eq!(progress_report(10, 0, 0), None);
}

#[test]
fn bootnext_armed_only_with_media_and_usb_entry() {
    assert_eq!(bootnext_plan(0, &Some("0014".to_string())), BootNextPlan::NoMedia);
    assert_eq!(bootnext_plan(1, &None), BootNextPlan::NoUsbEntry);
    assert_eq!(bootnext_plan(2, &Some("0014".to_string())), BootNextPlan::Arm("0014".to_string()));
}

#[test]
fn remove_target_must_exist() {
    let st = parse_efibootmgr("BootCurrent: 0001\nBoot0001* Debian\tHD(2,GPT,abc)/File(\\EFI\\debian\\grubx64.efi)\n");
    assert_eq!(remove_target(&st, "0001").unwrap().name, "Debian");
    let e = remove_target(&st, "0009").unwrap_err();
    assert_eq!(e.code, "SF-BOOT-003");
    assert_eq!(e.message, "Entrada de boot 0009 não existe");
}

#[test]
fn firmware_internal_entries_are_never_removable() {
    let st = parse_efibootmgr(
        "BootCurrent: 0000\nBoot0000* Ubuntu\tHD(1,GPT,5ce4)/File(\\EFI\\ubuntu\\shimx64.efi)\nBoot0010  Setup\tFvFile(721c8b66-426c-4e86-8e99-3457c46ab0b9)\nBoot0013* Hard Drive\tVenMsg(bc7838d2-0f82-4d60-8316-c068ee79d25b,f5b0)\n",
    );
    let e = remove_target(&st, "0010").unwrap_err();
    assert_eq!(e.code, "SF-BOOT-005");
    assert_eq!(e.message, "Entrada Setup é INTERNA do firmware — recusado");
    assert_eq!(
        e.recommendation,
        "Setup/Diagnostics/menus são gerados pelo próprio firmware; removê-las pode quebrar o boot."
    );
    assert_eq!(remove_target(&st, "0013").unwrap_err().code, "SF-BOOT-005");
    assert_eq!(remove_target(&st, "0000").unwrap().name, "Ubuntu");
    assert!(st.entries[1].is_firmware_internal());
    assert!(!st.entries[0].is_firmware_internal());
}

#[test]
fn power_without_confirm_is_refused() {
    let e = confirm_required(false);
    assert_eq!(e.code, "SF-AUTH-006");
    assert_eq!(e.message, "Use --confirm para reiniciar agora");
    assert_eq!(e.recommendation, "`sysforge power reboot --confirm` — ação imediata e sem prompt.");
    assert_eq!(confirm_required(true).message, "Use --confirm para desligar agora");
}

#[test]
fn io_and_json_failures_carry_their_codes() {
    let e = SysforgeError::io("permission denied");
    assert_eq!(e.code, "SF-IO-002");
    assert_eq!(e.message, "Erro de E/S: permission denied");
    assert_eq!(e.technical, "permission denied");
    let j = SysforgeError::json("expected value at line 1 column 1");
    assert_eq!(j.code, "SF-IO-003");
    assert_eq!(j.message, "Falha ao processar JSON: expected value at line 1 column 1");
    let d = no_daemon_answering(&vec!["/run/user/1000/sysforge-osd.dev.sock".to_string(), "/run/sysforge/osd.sock".to_string()]);
    assert_eq!(d.code, "SF-IO-005");
    assert_eq!(d.technical, "sockets tentados: /run/user/1000/sysforge-osd.dev.sock, /run/sysforge/osd.sock");
}
