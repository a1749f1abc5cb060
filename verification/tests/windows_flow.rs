use sysforge::backup::{
    backup_outcome, backup_start, backup_step, estimate, is_allowed_dir, probe_target, rsync_spec, BackupEstimate,
    DEFAULT_DIRS,
};
use sysforge::capability::{group_summary, polkit_dialog_agent_present, probe_capabilities, probe_tools, TOOL_NAMES};
use sysforge::disk::smart::{smart_health, smart_report, SmartAttribute, SmartData};
use sysforge::error::{ErrorDomain, SysforgeError};
use sysforge::executor::{ExecResult, Executor, ExecutorMode, Risk, RunPlan};
use sysforge::windows::checklist::{find_isos, fmt_gb, looks_like_windows11, run_checklist, ChecklistProbe, ItemStatus};
use sysforge::windows::diskboot::{
    ensure_grub_default_saved, grub_entry_text, mem_available_mb, plan as disk_plan, readiness, regex_lite,
    WIMBOOT_PATH,
};
use sysforge::windows::smallusb::{plan as usb_plan, SmallUsbPlan, EDITIONS};
use sysforge::windows::unattend::{generate_autounattend, UnattendConfig, KEY_HOME, KEY_PRO};
use sysforge::Availability;

fn ran(exit: Option<i32>, stdout: &str, stderr: &str) -> ExecResult {
    ExecResult {
        program: "x".to_string(),
        cmdline: "x".to_string(),
        exit_code: exit,
        stdout: stdout.to_string(),
        stderr: stderr.to_string(),
        duration_ms: 0,
        risk: Risk::ReadOnly,
        simulated: false,
        timed_out: false,
    }
}

#[test]
fn allowed_dirs_are_user_scoped() {
    for d in DEFAULT_DIRS {
        assert!(!d.contains(".."), "no default folder may traverse paths");
    }
    assert!(is_allowed_dir("Documentos"));
    assert!(!is_allowed_dir("../etc"));
}

#[test]
fn estimate_flags_when_too_big() {
    let e = BackupEstimate { total_bytes: 100, free_bytes: 10, fits: false };
    assert!(!e.fits, "total above free cannot fit");
    let computed = estimate(true, &vec![60, 40], Some(10)).unwrap();
    assert_eq!(computed.total_bytes, 100);
    assert!(!computed.fits);
    assert!(estimate(true, &vec![60], Some(61)).unwrap().fits);
    assert!(!estimate(true, &vec![], Some(61)).unwrap().fits);
    assert_eq!(estimate(false, &vec![1], Some(61)).unwrap_err().code, "SF-IO-030");
}

#[test]
fn backup_refuses_empty_and_unknown_folders() {
    assert_eq!(backup_start(&vec![], "/media/x").unwrap_err().code, "SF-STATE-010");
    assert_eq!(backup_start(&vec!["Music".to_string()], "/media/x").unwrap(), "/media/x/sysforge-backup");
    let ex = Executor::new(ExecutorMode::Real);
    let err = backup_step(&ex, "/etc", "/media/x/sysforge-backup").unwrap_err();
    assert_eq!(err.code, "SF-STATE-011");
    assert_eq!(err.message, "Pasta fora da lista permitida: /etc");
    match backup_step(&ex, "Music", "/media/x/sysforge-backup").unwrap() {
        RunPlan::Execute(spec, Risk::ReadOnly) => {
            assert_eq!(spec.program, "rsync");
            assert_eq!(spec.args[4], "Music/");
            assert_eq!(spec.args[5], "/media/x/sysforge-backup/Music/");
        },
        _ => panic!("rsync runs as a plain read-only command"),
    }
    assert!(backup_outcome("Music", &ran(Some(0), "", "")).is_ok());
    assert_eq!(backup_outcome("Music", &ran(Some(23), "", "x")).unwrap_err().code, "SF-IO-001");
}

#[test]
fn backup_never_passes_delete() {
    let spec = rsync_spec("Documents", "/mnt/t/sysforge-backup");
    assert!(spec.args.iter().all(|a| !a.starts_with("--delete")));
}

#[test]
fn backup_target_needs_a_device_source() {
    let t = probe_target("/media/u/stick", true, Some(1000), &Some("/dev/sdb1 vfat\n".to_string())).unwrap();
    assert_eq!(t.device, "/dev/sdb1");
    assert_eq!(t.fs, "vfat");
    assert_eq!(t.free_bytes, 1000);
    assert!(probe_target("/media/u/x", true, Some(1000), &Some("tmpfs tmpfs".to_string())).is_none());
    assert!(probe_target("/media/u/x", true, Some(0), &Some("/dev/sdb1 vfat".to_string())).is_none());
    assert!(probe_target("/media/u/x", false, Some(5), &Some("/dev/sdb1 vfat".to_string())).is_none());
}

#[test]
fn iso_pattern_matching() {
    assert!(looks_like_windows11("Win11_24H2_Brazilian_x64.iso"));
    assert!(looks_like_windows11("windows 11.iso"));
    assert!(!looks_like_windows11("linuxmint-22.3.iso"));
    assert!(!looks_like_windows11("win11.zip"));
}

#[test]
fn isos_are_filtered_sorted_and_deduplicated() {
    let g = 1073741824u64;
    let entries = vec![
        ("/d/small.iso".to_string(), "small.iso".to_string(), g),
        ("/d/mint.ISO".to_string(), "mint.ISO".to_string(), 3 * g),
        ("/d/Win11.iso".to_string(), "Win11.iso".to_string(), 6 * g),
        ("/d/Win11.iso".to_string(), "Win11.iso".to_string(), 6 * g),
        ("/d/notes.txt".to_string(), "notes.txt".to_string(), 9 * g),
    ];
    let isos = find_isos(&entries);
    assert_eq!(isos.len(), 2);
    assert_eq!(isos[0].path, "/d/Win11.iso");
    assert!(isos[0].looks_like_windows11);
    assert_eq!(isos[1].name, "mint.ISO");
    assert!(!isos[1].looks_like_windows11);
}

#[test]
fn gib_formatting_rounds_half_to_even() {
    let g = 1073741824u64;
    assert_eq!(fmt_gb(0), "0 GiB");
    assert_eq!(fmt_gb(8 * g), "8 GiB");
    assert_eq!(fmt_gb(g / 2), "0 GiB");
    assert_eq!(fmt_gb(g + g / 2), "2 GiB");
    assert_eq!(fmt_gb(2 * g + g / 2 + 1), "3 GiB");
}

#[test]
fn checklist_reports_what_was_probed() {
    let probe = ChecklistProbe {
        is_uefi: true,
        cpu_model: Some("i7".to_string()),
        tpm_present: false,
        secure_boot: Some(false),
        firmware_reboot: true,
        daemon_up: false,
    };
    let tools = probe_tools(&vec![]);
    let c = run_checklist(&probe, vec![], vec![], &Ok(None), &tools);
    assert_eq!(c.items.len(), 9);
    assert!(c.items.iter().any(|i| i.id == "uefi" && i.status == ItemStatus::Pass));
    assert!(c.items.iter().any(|i| i.id == "media" && i.status == ItemStatus::Fail));
    assert!(c.items.iter().any(|i| i.id == "firmware_reboot" && i.status == ItemStatus::Pass));
    let req = c.items.iter().find(|i| i.id == "requisitos").unwrap();
    assert_eq!(req.detail, "CPU: i7 · TPM: não detectado");
    assert_eq!(req.status, ItemStatus::Warn);
    assert!(c.recommendation.starts_with("Corrija"));
}

#[test]
fn entry_references_iso_and_wimboot() {
    let t = grub_entry_text("/home/user/Downloads/Win11.iso");
    assert!(t.contains("/home/user/Downloads/Win11.iso"));
    assert!(t.contains(WIMBOOT_PATH));
    assert!(t.contains("loopback loop"));
    assert!(t.contains("sources/boot.wim"));
    assert!(t.contains("exec tail -n +3"));
}

#[test]
fn readiness_is_honest_without_iso() {
    let r = readiness(None, true, true, 8000, false);
    if r.iso_path.is_none() {
        assert!(!r.ready);
        assert!(r.blockers.iter().any(|b| b.contains("ISO")));
    }
    assert!(r.ram_needed_mb >= 2000);
    assert_eq!(r.blockers.len(), 1);
    assert!(r.wimboot_needs_download);
    let err = disk_plan(&r).unwrap_err();
    assert_eq!(err.code, "SF-BOOT-020");
    assert_eq!(err.recommendation, r.blockers[0]);
}

#[test]
fn ready_disk_method_plans_the_entry() {
    let r = readiness(Some("/home/u/Downloads/Win11.iso".to_string()), true, true, 4096, true);
    assert!(r.ready && r.blockers.is_empty());
    let p = disk_plan(&r).unwrap();
    assert_eq!(p.entry_text, grub_entry_text("/home/u/Downloads/Win11.iso"));
    let low = readiness(None, false, false, 100, true);
    assert_eq!(low.blockers.len(), 4);
    assert_eq!(low.blockers[3], "RAM livre 100 MiB < 2500 MiB — o instalador carrega inteiro na memória");
    assert_eq!(disk_plan(&low).unwrap_err().technical, low.blockers.join(" · "));
}

#[test]
fn grub_default_saved_detection() {
    assert!(regex_lite("GRUB_DEFAULT=saved"));
    assert!(regex_lite("GRUB_DEFAULT=\"saved\""));
    assert!(!regex_lite("#GRUB_DEFAULT=saved"));
    assert!(!regex_lite("GRUB_DEFAULT=0"));
    assert_eq!(ensure_grub_default_saved("GRUB_DEFAULT=saved\n"), None);
    assert_eq!(
        ensure_grub_default_saved("GRUB_DEFAULT=0\n\n").unwrap(),
        "GRUB_DEFAULT=0\n# SYSFORGE: permite boot one-shot via grub-reboot\nGRUB_DEFAULT=saved\n"
    );
}

#[test]
fn mem_available_in_mib() {
    assert_eq!(mem_available_mb("MemTotal: 1 kB\nMemAvailable:    8123456 kB\n"), 7933);
    assert_eq!(mem_available_mb("MemTotal: 1 kB\n"), 0);
}

#[test]
fn editions_are_official_indexes() {
    assert!(EDITIONS.iter().any(|(i, n)| *i == 1 && n.contains("Home")));
    assert!(EDITIONS.iter().any(|(i, n)| *i == 4 && n.contains("Pro")));
}

#[test]
fn fit_math_is_conservative() {
    let plan = SmallUsbPlan {
        stick: "/dev/sdz".into(),
        stick_size_bytes: 3_900_000_000,
        edition_index: 4,
        edition_name: "Pro".into(),
        boot_tree_bytes: 1_300_000_000,
        esd_cached: true,
        fits: false,
    };
    assert!(!plan.fits, "a conservative estimate never promises a too-small stick");
    let p = usb_plan("/dev/sdz", 4, true, true, 3_900_000_000, false, None).unwrap();
    assert!(!p.fits);
    assert_eq!(p.edition_name, "Windows 11 Pro");
    assert!(usb_plan("/dev/sdz", 4, true, true, 8_000_000_000, false, None).unwrap().fits);
    assert_eq!(usb_plan("/dev/sdz", 2, true, true, 1, false, None).unwrap_err().code, "SF-BOOT-042");
    assert_eq!(usb_plan("/dev/sdz", 4, false, true, 1, false, None).unwrap_err().code, "SF-DEP-040");
    assert_eq!(usb_plan("/dev/sdz", 4, true, false, 1, false, None).unwrap_err().code, "SF-BOOT-041");
}

#[test]
fn generates_bypass_and_ptbr_defaults() {
    let xml = generate_autounattend(&UnattendConfig::default()).unwrap();
    assert!(xml.contains(r#"<?xml version="1.0""#));
    assert!(xml.contains("BypassTPMCheck"));
    assert!(xml.contains("BypassSecureBootCheck"));
    assert!(xml.contains("BypassRAMCheck"));
    assert!(xml.contains("BypassCPUCheck"));
    assert!(xml.contains(KEY_PRO), "default edition is pro");
    assert!(xml.contains("pt-BR"));
    assert!(xml.contains("E. South America Standard Time"));
    assert!(!xml.contains("WillWipeDisk"), "without full_disk_wipe the disk is not erased");
    assert!(!xml.contains("<Password"), "passwords are never embedded");
}

#[test]
fn home_edition_uses_home_key() {
    let mut cfg = UnattendConfig::default();
    cfg.edition = "home".into();
    let xml = generate_autounattend(&cfg).unwrap();
    assert!(xml.contains(KEY_HOME));
    assert!(!xml.contains(KEY_PRO));
    let mut wipe_cfg = cfg.clone();
    wipe_cfg.full_disk_wipe = true;
    let xml_wipe = generate_autounattend(&wipe_cfg).unwrap();
    assert!(xml_wipe.contains("Windows 11 Home"));
    assert!(!xml_wipe.contains("Windows 11 Pro"));
}

#[test]
fn full_wipe_adds_disk_configuration_with_loud_warning() {
    let mut cfg = UnattendConfig::default();
    cfg.full_disk_wipe = true;
    let xml = generate_autounattend(&cfg).unwrap();
    assert!(xml.contains("WillWipeDisk"));
    assert!(xml.contains("MODO APAGAR DISCO 0 ATIVO"));
    assert!(xml.contains("<PartitionID>3</PartitionID>"));
}

#[test]
fn rejects_unknown_edition() {
    let mut cfg = UnattendConfig::default();
    cfg.edition = "enterprise-n".into();
    assert_eq!(generate_autounattend(&cfg).unwrap_err().code, "SF-NOTSUP-002");
}

#[test]
fn edition_case_is_ignored_and_bypass_can_be_off() {
    let mut cfg = UnattendConfig::default();
    cfg.edition = "HoMe".into();
    cfg.bypass_requirements = false;
    let xml = generate_autounattend(&cfg).unwrap();
    assert!(xml.contains(KEY_HOME));
    assert!(!xml.contains("LabConfig"));
}

#[test]
fn tools_and_groups_follow_the_registry() {
    let mut located: Vec<Option<String>> = vec![None; 30];
    located[0] = Some("/usr/bin/lsblk".to_string());
    located[1] = Some("/usr/sbin/blkid".to_string());
    let tools = probe_tools(&located);
    assert_eq!(tools.len(), 30);
    assert_eq!(tools[0].name, TOOL_NAMES[0]);
    assert!(tools[0].found && tools[1].found && !tools[2].found);
    assert_eq!(tools[0].path.as_deref(), Some("/usr/bin/lsblk"));
    let groups = group_summary(&tools);
    let core = groups.iter().find(|g| g.group == "core").unwrap();
    assert_eq!((core.present, core.total), (2, 20));
    let total: usize = groups.iter().map(|g| g.total).sum();
    assert_eq!(total, 30);
    let rep = probe_capabilities(&located, false, true, false, &vec![true, false, true, true]);
    assert!(!rep.tauri_build_ready);
    assert!(matches!(rep.ovmf, Availability::Available));
    match rep.kvm {
        Availability::Unavailable { reason_code, .. } => assert_eq!(reason_code, "SF-DEP-001"),
        _ => panic!("no /dev/kvm means unavailable"),
    }
}

#[test]
fn polkit_agent_is_found_in_cmdlines() {
    assert!(polkit_dialog_agent_present(&vec!["/usr/lib/polkit-mate/polkit-mate-authentication-agent-1\0".to_string()]));
    assert!(!polkit_dialog_agent_present(&vec!["/usr/lib/polkit-1/polkit-agent-helper-1\0x".to_string()]));
}

#[test]
fn honest_unavailability_without_smartctl_installed() {
    let r = smart_health("/dev/sda", false, &Err(SysforgeError::new(ErrorDomain::Dep, 5, "x")));
    assert!(!r.available.is_available(), "smartctl missing means unavailable");
    assert_eq!(
        match &r.available {
            Availability::Unavailable { reason_code, .. } => reason_code.clone(),
            _ => String::new(),
        },
        "SF-DEP-005"
    );
    assert!(r.passed.is_none() && r.temperature_c.is_none());
}

#[test]
fn never_panics_on_fake_device() {
    let _ = smart_health(
        "/dev/nonexistent-disk",
        true,
        &Ok(ran(Some(2), "", "Smartctl open device: /dev/nonexistent-disk failed: No such device")),
    );
}

const SMART_SAMPLE: &str = r#"{"smart_status":{"passed":true},"temperature":{"current":41},"power_on_time":{"hours":12000},"ata_smart_attributes":{"table":[{"id":9,"raw":{"value":12000}},{"id":5,"raw":{"value":3}}]}}"#;

#[test]
fn smart_report_reads_values_and_permission_refusals() {
    let r = smart_health("/dev/sda", true, &Ok(ran(Some(0), SMART_SAMPLE, "")));
    assert!(r.available.is_available());
    assert_eq!(r.passed, Some(true));
    assert_eq!(r.temperature_c, Some(41));
    assert_eq!(r.power_on_hours, Some(12000));
    assert_eq!(r.reallocated_sectors, Some(3));
    let denied = smart_health("/dev/sda", true, &Ok(ran(Some(2), SMART_SAMPLE, "Permission Denied")));
    match denied.available {
        Availability::Unavailable { reason_code, .. } => assert_eq!(reason_code, "SF-DEP-006"),
        _ => panic!("a permission refusal is unavailable"),
    }
    assert!(denied.passed.is_none() && denied.temperature_c.is_none());
}

#[test]
fn smart_json_fields_and_blank_output() {
    let r = smart_health("/dev/sdc", true, &Ok(ran(Some(4), SMART_SAMPLE, "")));
    assert!(r.available.is_available());
    assert_eq!((r.passed, r.temperature_c, r.power_on_hours, r.reallocated_sectors), (Some(true), Some(41), Some(12000), Some(3)));
    let blank = smart_health("/dev/sda", true, &Ok(ran(Some(0), "  ", "")));
    match &blank.available {
        Availability::Unavailable { reason_code, reason } => {
            assert_eq!(reason_code, "SF-DEP-008");
            assert!(reason.starts_with("saída do smartctl não pôde ser interpretada: "));
        }
        _ => panic!("blank output is unavailable"),
    }
    assert!(blank.passed.is_none() && blank.temperature_c.is_none() && blank.power_on_hours.is_none());
    let partial = smart_health("/dev/sdb", true, &Ok(ran(Some(0), "{\"temperature\":{\"current\":35}}", "")));
    assert!(partial.available.is_available());
    assert_eq!(partial.temperature_c, Some(35));
    assert_eq!(partial.passed, None);
    assert_eq!(partial.reallocated_sectors, None);
}

#[test]
fn unattend_holds_no_password_for_any_choice() {
    for edition in ["home", "pro", "PRO"] {
        for full_disk_wipe in [false, true] {
            for bypass_requirements in [false, true] {
                let cfg = UnattendConfig {
                    edition: edition.to_string(),
                    locale: "en-US".to_string(),
                    timezone: "UTC".to_string(),
                    full_disk_wipe,
                    bypass_requirements,
                };
                let xml = generate_autounattend(&cfg).unwrap();
                assert!(!xml.contains("<Password"));
            }
        }
    }
}

#[test]
fn unattend_escapes_locale_and_timezone() {
    let cfg = UnattendConfig {
        locale: "<Password>x</Password>".to_string(),
        timezone: "A & B > C".to_string(),
        ..UnattendConfig::default()
    };
    let xml = generate_autounattend(&cfg).unwrap();
    assert!(!xml.contains("<Password"));
    assert!(xml.contains("<UILocale>&lt;Password&gt;x&lt;/Password&gt;</UILocale>"));
    assert!(xml.contains("<TimeZone>A &amp; B &gt; C</TimeZone>"));
}

#[test]
fn smart_report_from_parsed_values() {
    let data = SmartData {
        passed: Some(false),
        temperature: Some(55),
        power_on_hours: Some(40000),
        attributes: Some(vec![
            SmartAttribute { id: Some(5), raw_value: Some(7) },
            SmartAttribute { id: Some(197), raw_value: Some(1) },
            SmartAttribute { id: Some(5), raw_value: Some(9) },
        ]),
    };
    let r = smart_report("/dev/sdb", "{...}", &Ok(data.clone()));
    assert!(r.available.is_available());
    assert_eq!((r.passed, r.temperature_c, r.power_on_hours, r.reallocated_sectors), (Some(false), Some(55), Some(40000), Some(9)));
    let bad = smart_report("/dev/sdb", "x", &Err("expected value at line 1 column 1".to_string()));
    match &bad.available {
        Availability::Unavailable { reason_code, reason } => {
            assert_eq!(reason_code, "SF-DEP-008");
            assert_eq!(reason, "saída do smartctl não pôde ser interpretada: expected value at line 1 column 1");
        }
        _ => panic!("an unreadable output is unavailable"),
    }
    let empty = SmartData { passed: None, temperature: Some(30), power_on_hours: None, attributes: None };
    let blank = smart_report("/dev/sdb", "  ", &Ok(empty));
    assert!(!blank.available.is_available());
    assert!(blank.temperature_c.is_none());
}
