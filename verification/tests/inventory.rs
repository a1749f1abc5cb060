use sysforge::disk::lsblk::LsblkDevice;
use sysforge::disk::report::{disk_row, partition_rows, smart_line};
use sysforge::disk::smart::SmartReport;
use sysforge::Availability;

fn partition(name: &str, label: Option<&str>, fstype: Option<&str>, size: u64, mounts: Vec<Option<&str>>) -> LsblkDevice {
    LsblkDevice {
        name: name.to_string(),
        kind: Some("part".to_string()),
        partlabel: label.map(|s| s.to_string()),
        fstype: fstype.map(|s| s.to_string()),
        size,
        mountpoints: Some(mounts.into_iter().map(|m| m.map(|s| s.to_string())).collect()),
        ..Default::default()
    }
}

fn disk() -> LsblkDevice {
    LsblkDevice {
        name: "nvme0n1".to_string(),
        kind: Some("disk".to_string()),
        model: Some("  WDC PC SN530  ".to_string()),
        serial: Some("   ".to_string()),
        size: 256060514304,
        tran: Some("nvme".to_string()),
        rm: Some(false),
        children: vec![
            partition("nvme0n1p1", Some("EFI System Partition"), Some("vfat"), 536870912, vec![Some("/boot/efi")]),
            partition("nvme0n1p2", None, Some("ext4"), 255521226752, vec![Some("/"), None, Some("/var/snap")]),
            partition("nvme0n1p3", Some("EFİ"), None, 1024, vec![]),
            partition("nvme0n1p4", Some("defi"), None, 0, vec![None]),
        ],
        ..Default::default()
    }
}

#[test]
fn disk_header_row_dashes_missing_fields() {
    assert_eq!(disk_row(&disk(), false), vec!["nvme0n1", "WDC PC SN530", "—", "238 GiB", "nvme", "fixa"]);
    let usb = LsblkDevice { name: "sda".to_string(), rm: Some(true), size: 1536, ..Default::default() };
    assert_eq!(disk_row(&usb, false), vec!["sda", "—", "—", "1,5 KiB", "—", "removível"]);
}

#[test]
fn partition_rows_mark_esp_labels_and_join_mounts() {
    let rows = partition_rows(&disk(), false);
    assert_eq!(rows.len(), 4);
    assert_eq!(rows[0], vec!["└─ nvme0n1p1", "EFI System Partition ⚑ESP", "vfat", "512 MiB", "/boot/efi"]);
    assert_eq!(rows[1], vec!["└─ nvme0n1p2", "—", "ext4", "238 GiB", "/, /var/snap"]);
    // "EFİ".to_lowercase() is "efi̇", which contains "efi".
    assert_eq!(rows[2], vec!["└─ nvme0n1p3", "EFİ ⚑ESP", "—", "1,0 KiB", "—"]);
    assert_eq!(rows[3], vec!["└─ nvme0n1p4", "defi ⚑ESP", "—", "0 B", "—"]);
}

#[test]
fn smart_line_states_verdict_or_reason() {
    let mut r = SmartReport {
        device: "/dev/sda".to_string(),
        available: Availability::Available,
        passed: Some(true),
        temperature_c: None,
        power_on_hours: None,
        reallocated_sectors: None,
    };
    assert_eq!(smart_line(&r, false), "  SMART: aprovado");
    r.passed = Some(false);
    assert_eq!(smart_line(&r, false), "  SMART: REPROVADO — disco em risco!");
    r.passed = None;
    assert_eq!(smart_line(&r, false), "  SMART: sem veredito (executar como root p/ detalhes)");
    r.available = Availability::Unavailable { reason_code: "SF-DEP-005".to_string(), reason: "smartctl ausente".to_string() };
    assert_eq!(smart_line(&r, false), "  ⚠ SMART indisponível — SF-DEP-005: smartctl ausente");
}
