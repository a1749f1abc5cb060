use sysforge::boot::efi::parse_efibootmgr;
use sysforge::boot::snapshot::{snapshot_names, snapshots_dir, BootSnapshot};
use sysforge::daemon::DaemonMode;
use sysforge::disk::identity::DiskIdentity;
use sysforge::disk::lsblk::LsblkDevice;
use sysforge::error::{ErrorDomain, SysforgeError};
use sysforge::executor::{ExecResult, Risk};
use sysforge::handlers::{
    boot_request_steps, edition_param, parse_daemon_args, require_confirm, require_str, route, set_next_target, unknown_method,
    BootStep, DaemonArgs, Route,
};
use sysforge::ipc::client::{response_outcome, wait_step, IpcTimeout, ResponseHead, WaitStep};
use sysforge::ipc::protocol::WireError;
use sysforge::ui::{bar, fmt_bytes, fmt_uptime, gradient_line, paint, table, tag_ok};
use sysforge::windows::checklist::fmt_gb;
use sysforge::windows::media::list_removable_media;
use sysforge::windows::smallusb::{build_begin, build_next, plan, BuildAction, BuildEvent, Cmd, Stage};

fn ran(exit: Option<i32>, stdout: &str, simulated: bool) -> ExecResult {
    ExecResult {
        program: "x".to_string(),
        cmdline: "x".to_string(),
        exit_code: exit,
        stdout: stdout.to_string(),
        stderr: String::new(),
        duration_ms: 0,
        risk: Risk::LowRisk,
        simulated,
        timed_out: false,
    }
}

#[test]
fn methods_route_and_effects_need_confirmation() {
    assert_eq!(route("v1.boot.set_next"), Route::BootSetNext);
    assert_eq!(route("v1.echo"), Route::Echo);
    assert_eq!(route("v1.nope"), Route::Unknown);
    assert!(require_confirm(Some(true)).is_ok());
    assert_eq!(require_confirm(Some(false)).unwrap_err().code, "SF-AUTH-006");
    assert_eq!(require_confirm(None).unwrap_err().code, "SF-AUTH-006");
    assert_eq!(require_str("entry_id", None).unwrap_err().message, "Parâmetro obrigatório ausente: entry_id");
    assert_eq!(require_str("entry_id", Some("0001".to_string())).unwrap(), "0001");
    let e = unknown_method("v1.nope");
    assert_eq!(e.code, "SF-NOTSUP-001");
    assert_eq!(e.message, "Método desconhecido: v1.nope");
    assert_eq!(edition_param(None), 4);
    assert_eq!(edition_param(Some(1)), 1);
    assert_eq!(edition_param(Some(4294967297)), 1);
}

#[test]
fn bootnext_target_must_exist_and_be_active() {
    let s = parse_efibootmgr("Boot0000* Ubuntu\tHD(1)/File(\\EFI\\u.efi)\nBoot0010  Setup\tFvFile(x)\n");
    assert_eq!(set_next_target(&s, "0000").unwrap().name, "Ubuntu");
    let e = set_next_target(&s, "0010").unwrap_err();
    assert_eq!(e.code, "SF-BOOT-004");
    assert_eq!(e.message, "Entrada 0010 (Setup) está INATIVA no firmware");
    assert_eq!(set_next_target(&s, "00FF").unwrap_err().code, "SF-BOOT-003");
}

#[test]
fn daemon_arguments_are_parsed() {
    let args = |v: &[&str]| v.iter().map(|s| s.to_string()).collect::<Vec<String>>();
    match parse_daemon_args(&args(&["--system", "--socket", "/tmp/s.sock"])) {
        DaemonArgs::Run { mode, socket } => {
            assert_eq!(mode, DaemonMode::System);
            assert_eq!(socket.as_deref(), Some("/tmp/s.sock"));
        },
        _ => panic!("a run was asked for"),
    }
    assert!(matches!(parse_daemon_args(&args(&[])), DaemonArgs::Run { mode: DaemonMode::Dev, socket: None }));
    assert!(matches!(parse_daemon_args(&args(&["--socket"])), DaemonArgs::MissingSocketPath));
    assert!(matches!(parse_daemon_args(&args(&["-h"])), DaemonArgs::Help));
    assert!(matches!(parse_daemon_args(&args(&["--version", "--bogus"])), DaemonArgs::Version));
    match parse_daemon_args(&args(&["--bogus"])) {
        DaemonArgs::UnknownOption(o) => assert_eq!(o, "--bogus"),
        _ => panic!("unknown option"),
    }
}

#[test]
fn responses_are_checked() {
    let head = |closed, id, ok, has_result, error| ResponseHead { closed, id, ok, has_result, error };
    assert!(response_outcome(3, &head(false, 3, true, true, None)).is_ok());
    assert_eq!(response_outcome(3, &head(true, 0, false, false, None)).unwrap_err().code, "SF-IO-006");
    let e = response_outcome(3, &head(false, 4, true, true, None)).unwrap_err();
    assert_eq!(e.code, "SF-IO-007");
    assert_eq!(e.technical, "esperado id 3, recebido 4");
    assert_eq!(response_outcome(3, &head(false, 3, true, false, None)).unwrap_err().code, "SF-IO-008");
    assert_eq!(response_outcome(3, &head(false, 3, false, false, None)).unwrap_err().code, "SF-IO-009");
    let w: WireError = SysforgeError::new(ErrorDomain::Auth, 5, "negado").into();
    assert_eq!(response_outcome(3, &head(false, 3, false, false, Some(w))).unwrap_err().code, "SF-AUTH-005");
    assert_eq!(IpcTimeout::Default.duration_secs(), 30);
    assert_eq!(IpcTimeout::Long.duration_secs(), 200);
    assert!(matches!(wait_step(true, 99, 90), WaitStep::Ready));
    assert!(matches!(wait_step(false, 10, 90), WaitStep::KeepWaiting));
    match wait_step(false, 90, 90) {
        WaitStep::GiveUp(e) => assert_eq!(e.code, "SF-AUTH-007"),
        _ => panic!("deadline passed"),
    }
}

#[test]
fn plain_table_layout() {
    let rows = vec![vec!["0000".to_string(), "Ubuntu".to_string()], vec!["10".to_string(), "x".to_string()]];
    let t = table(&["ID", "NOME"], &rows, false);
    let expected = "┌──────┬────────┐\n│ ID   │ NOME   │\n├──────┼────────┤\n│ 0000 │ Ubuntu │\n├──────┼────────┤\n│ 10   │ x      │\n└──────┴────────┘";
    assert_eq!(t, expected);
    assert_eq!(paint("abc", "red", false), "abc");
    assert_eq!(paint("abc", "no-such-style", true), "abc");
    assert_eq!(tag_ok(false), "✔");
}

#[test]
fn removable_media_come_from_removable_disks() {
    let part = LsblkDevice {
        name: "sdb1".to_string(),
        fstype: Some("exfat".to_string()),
        mountpoints: Some(vec![Some("/media/u/Ventoy".to_string())]),
        ..Default::default()
    };
    let stick = LsblkDevice {
        name: "sdb".to_string(),
        kind: Some("disk".to_string()),
        rm: Some(true),
        size: 32_000_000_000,
        model: Some("  Cruzer  ".to_string()),
        children: vec![part],
        ..Default::default()
    };
    let fixed = LsblkDevice { name: "sda".to_string(), kind: Some("disk".to_string()), rm: Some(false), ..Default::default() };
    let media = list_removable_media(&vec![fixed, stick], &vec!["/media/u/Ventoy".to_string()]);
    assert_eq!(media.len(), 1);
    assert!(media.iter().all(|m| m.name != "sda"));
    assert_eq!(media[0].path, "/dev/sdb");
    assert_eq!(media[0].mounted_at.as_deref(), Some("/media/u/Ventoy"));
    assert_eq!(media[0].fstype.as_deref(), Some("exfat"));
    assert_eq!(media[0].model.as_deref(), Some("Cruzer"));
    assert!(media[0].is_ventoy);
}

#[test]
fn snapshots_live_where_the_mode_says() {
    assert_eq!(snapshots_dir(0, None).unwrap(), "/var/lib/yua-os-manager/snapshots");
    assert_eq!(
        snapshots_dir(1000, Some("/home/u".to_string())).unwrap(),
        "/home/u/.local/share/yua-os-manager/snapshots"
    );
    assert_eq!(snapshots_dir(1000, None).unwrap_err().code, "SF-IO-002");
    let (name, tmp) = snapshot_names("20240101-120000");
    assert_eq!(name, "boot-snapshot-20240101-120000.json");
    assert_eq!(tmp, ".boot-snapshot-20240101-120000.json.tmp");
    let snap = BootSnapshot::capture(&ran(Some(0), "BootCurrent: 0000\n", false), Ok(ran(Some(0), "raw", false))).unwrap();
    assert_eq!(snap.state.boot_current.as_deref(), Some("0000"));
    assert_eq!(snap.raw_verbose, "raw");
    assert!(snap.captured_at.contains('T'));
}

#[test]
fn small_stick_build_walks_its_steps() {
    let id = DiskIdentity::synthetic_for_tests("/dev/sdz");
    let p = plan("/dev/sdz", 4, true, true, 8_000_000_000, true, Some(2_000_000_000));
    let (mut st, a) = build_begin(&id, Ok(()), p, "/home/u/Win11.iso", true, None).unwrap();
    assert!(matches!(a, BuildAction::MakeDir(ref d) if d == "/var/lib/sysforge/smallusb"));
    let (s, a) = build_next(st, BuildEvent::Done);
    st = s;
    assert!(matches!(a, BuildAction::MakeDir(_)));
    let (s, a) = build_next(st, BuildEvent::Done);
    st = s;
    assert!(matches!(a, BuildAction::Run(Cmd::MountIso)));
    let (s, a) = build_next(st, BuildEvent::Ran(ran(Some(0), "", false)));
    st = s;
    // the cached install.esd skips the export
    assert!(matches!(a, BuildAction::RunDestructive(Cmd::Wipe, ref op) if op == "small-usb-wipe"));
    let (s, a) = build_next(st, BuildEvent::Ran(ran(Some(0), "", true)));
    st = s;
    // a simulated wipe is refused, after unmounting the ISO
    assert!(matches!(a, BuildAction::Run(Cmd::UmountIso)));
    assert_eq!(st.stage, Stage::Aborting);
    let (_, a) = build_next(st, BuildEvent::Ran(ran(Some(0), "", false)));
    match a {
        BuildAction::Finish(Err(e)) => assert_eq!(e.code, "SF-STATE-012"),
        _ => panic!("the build ends with the refusal"),
    }
    let small = plan("/dev/sdz", 4, true, true, 1_000, false, None);
    assert_eq!(build_begin(&id, Ok(()), small, "/i.iso", false, None).unwrap_err().code, "SF-DISK-021");
    let p = plan("/dev/sdz", 4, true, true, 8_000_000_000, false, None);
    let refused = build_begin(&id, Err(SysforgeError::new(ErrorDomain::Disk, 9, "x")), p, "/i.iso", false, None);
    assert_eq!(refused.unwrap_err().code, "SF-DISK-020");
}

#[test]
fn fmt_bytes_matches_float_formatting() {
    assert_eq!(fmt_bytes(0), "0 B");
    assert_eq!(fmt_bytes(1), "1,0 B");
    assert_eq!(fmt_bytes(100), "100 B");
    assert_eq!(fmt_bytes(1023), "1023 B");
    assert_eq!(fmt_bytes(1024), "1,0 KiB");
    assert_eq!(fmt_bytes(1280), "1,2 KiB");
    assert_eq!(fmt_bytes(1536), "1,5 KiB");
    assert_eq!(fmt_bytes(102400), "100 KiB");
    assert_eq!(fmt_bytes(1048575), "1024 KiB");
    assert_eq!(fmt_bytes(500107862016), "466 GiB");
    assert_eq!(fmt_bytes(u64::MAX), "16384 PiB");
}

#[test]
fn fmt_bytes_rounds_huge_sizes_as_f64_does() {
    // 1024.5 PiB plus one byte: the conversion to f64 drops the byte and the
    // tie then rounds to even.
    assert_eq!(fmt_bytes(1153484454560268289), "1024 PiB");
    assert_eq!(fmt_bytes(1153484454560268288 + 562949953421312), "1025 PiB");
}

#[test]
fn fmt_gb_rounds_half_to_even() {
    assert_eq!(fmt_gb(1610612736), "2 GiB");
    assert_eq!(fmt_gb(2684354560), "2 GiB");
    assert_eq!(fmt_gb(u64::MAX), "17179869184 GiB");
}

#[test]
fn fmt_uptime_picks_days_hours_or_minutes() {
    assert_eq!(fmt_uptime(0), "0min");
    assert_eq!(fmt_uptime(3599), "59min");
    assert_eq!(fmt_uptime(3600), "1h 0min");
    assert_eq!(fmt_uptime(86399), "23h 59min");
    assert_eq!(fmt_uptime(90061), "1d 1h");
}

#[test]
fn bar_without_color_is_plain_cells() {
    assert_eq!(bar(3, 8, "green", false), "[███░░░░░]");
    assert_eq!(bar(0, 2, "red", false), "[░░]");
}

#[test]
fn gradient_line_paints_each_character() {
    assert_eq!(gradient_line("ab", false, &vec![]), "ab");
    assert_eq!(
        gradient_line("ab", true, &vec![(156, 81, 255), (0, 229, 255)]),
        "\x1b[38;2;156;81;255ma\x1b[0m\x1b[38;2;0;229;255mb\x1b[0m"
    );
}

#[test]
fn boot_requests_snapshot_before_writing() {
    let steps = boot_request_steps(Route::BootSetNext, "0014");
    assert_eq!(steps.len(), 3);
    assert!(matches!(steps[0], BootStep::CheckEntry { must_be_active: true }));
    assert!(matches!(steps[1], BootStep::Snapshot { save_optional: false }));
    match &steps[2] {
        BootStep::Write(c) => assert_eq!(c.args, vec!["--bootnext".to_string(), "0014".to_string()]),
        other => panic!("unexpected step {other:?}"),
    }
    let remove = boot_request_steps(Route::BootRemoveEntry, "0003");
    assert!(matches!(remove[0], BootStep::CheckEntry { must_be_active: false }));
    match &remove[2] {
        BootStep::Write(c) => assert_eq!(c.args, vec!["-b".to_string(), "0003".to_string(), "-B".to_string()]),
        other => panic!("unexpected step {other:?}"),
    }
    let arm = boot_request_steps(Route::BootArmFirmware, "");
    assert!(matches!(arm[0], BootStep::Snapshot { save_optional: true }));
    assert!(matches!(arm[1], BootStep::ArmOsIndications));
    assert!(boot_request_steps(Route::SystemReboot, "").is_empty());
}
