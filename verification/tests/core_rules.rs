use sysforge::daemon::{authorize, DaemonMode, Decision};
use sysforge::disk::identity::DiskIdentity;
use sysforge::error::{ErrorDomain, SysforgeError};
use sysforge::executor::{disk_of_partition, partition_base_of, host_root_disk, CommandSpec, ExecResult, Executor, ExecutorMode, Risk, RunPlan};
use sysforge::ipc::protocol::{
    is_destructive, is_privileged, WireError, DESTRUCTIVE_REGISTRY, METHOD_BOOT_SET_NEXT, METHOD_ECHO,
    METHOD_SYSTEM_POWEROFF, PRIVILEGED_METHODS,
};
use sysforge::state::{OperationRecord, OperationState};
use sysforge::canonical::canonical_json;
use sysforge::capability::{probe_capabilities, TOOL_NAMES};
use sysforge::props::PropertyMap;

fn exec_result(exit: Option<i32>, stdout: &str, stderr: &str) -> ExecResult {
    ExecResult {
        program: "x".to_string(),
        cmdline: "x".to_string(),
        exit_code: exit,
        stdout: stdout.to_string(),
        stderr: stderr.to_string(),
        duration_ms: 0,
        risk: Risk::ReadOnly,
        simulated: false,
        timed_out: false,
    }
}

#[test]
fn error_codes_format() {
    let e = SysforgeError::new(ErrorDomain::Disk, 1, "disco não encontrado");
    assert_eq!(e.code, "SF-DISK-001");
    let e2 = SysforgeError::new(ErrorDomain::Uefi, 12, "x");
    assert_eq!(e2.code, "SF-UEFI-012");
}

#[test]
fn display_includes_recommendation() {
    let e = SysforgeError::new(ErrorDomain::Auth, 2, "autorização necessária")
        .with_technical("polkit indisponível")
        .with_recommendation("instale policykit-1");
    let s = e.to_string();
    assert!(s.contains("SF-AUTH-002"));
    assert!(s.contains("detalhe: polkit indisponível"));
    assert!(s.contains("sugestão: instale policykit-1"));
}

#[test]
fn rendered_error_is_exact() {
    let e = SysforgeError::new(ErrorDomain::Io, 5, "m").with_technical("t");
    assert_eq!(e.to_string(), "[SF-IO-005] m\n  detalhe: t");
}

#[test]
fn command_failed_quotes_arguments_and_trims_stderr() {
    let e = SysforgeError::command_failed("rsync", &["a b".to_string(), "c".to_string()], Some(23), "  boom \n");
    assert_eq!(e.code, "SF-IO-001");
    assert_eq!(e.message, "O comando `rsync` falhou");
    assert_eq!(e.technical, "`rsync \"a b\" c` terminou com status Some(23). stderr: boom");
}

#[test]
fn wire_error_maps_both_ways() {
    let e = SysforgeError::new(ErrorDomain::Auth, 2, "destrutivo recusado")
        .with_recommendation("use o daemon em modo sistema");
    let w: WireError = e.clone().into();
    assert_eq!(w.code, "SF-AUTH-002");
    let back: SysforgeError = w.into();
    assert_eq!(back.code, "SF-AUTH-002");
    assert_eq!(back.recommendation, "use o daemon em modo sistema");
    assert_eq!(back, e);
}

#[test]
fn destructive_registry_is_declared() {
    assert!(DESTRUCTIVE_REGISTRY.contains(&"v1.disk.wipe"));
    assert!(!DESTRUCTIVE_REGISTRY.contains(&"v1.boot.set_next"), "set_next is an implemented privileged method");
    assert!(PRIVILEGED_METHODS.contains(&METHOD_BOOT_SET_NEXT));
    assert!(PRIVILEGED_METHODS.contains(&METHOD_SYSTEM_POWEROFF));
    assert!(is_destructive("v1.disk.format"));
    assert!(is_privileged(METHOD_BOOT_SET_NEXT));
    assert!(!is_privileged(METHOD_ECHO));
}

#[test]
fn dry_run_executes_readonly_but_not_destructive() {
    let ex = Executor::new(ExecutorMode::DryRun);

    // Read-only runs for real in DryRun (real data for the plan).
    let p = ex.run_readonly(CommandSpec::new("sh").arg("-c").arg("echo real"));
    assert!(matches!(p, RunPlan::Execute(_, Risk::ReadOnly)));

    // Destructive in DryRun is NOT executed.
    let p = ex
        .run_destructive(
            CommandSpec::new("sh").arg("-c").arg("echo destroyed > /tmp/yua-should-not-exist"),
            &DiskIdentity::synthetic_for_tests("/dev/zzz9"),
            "op-test-1",
            &None,
            Ok(()),
        )
        .unwrap();
    assert!(matches!(p, RunPlan::Simulate(_, Risk::Destructive)));
}

#[test]
fn destructive_requires_operation_id() {
    let ex = Executor::new(ExecutorMode::Real);
    let err = ex
        .run_destructive(CommandSpec::new("true"), &DiskIdentity::synthetic_for_tests("/dev/null"), "", &None, Ok(()))
        .unwrap_err();
    assert_eq!(err.code, "SF-STATE-001");
}

#[test]
fn blank_operation_id_is_state_001() {
    let ex = Executor::new(ExecutorMode::Real);
    let err = ex
        .run_destructive(CommandSpec::new("true"), &DiskIdentity::synthetic_for_tests("/dev/null"), "  ", &None, Ok(()))
        .unwrap_err();
    assert_eq!(err.code, "SF-STATE-001");
}

#[test]
fn host_disk_guard_blocks_rootfs_disk() {
    let ex = Executor::new(ExecutorMode::Real);
    let mounts = "proc /proc proc rw 0 0\n/dev/nvme0n1p2 / ext4 rw,relatime 0 0\n/dev/nvme0n1p1 /boot/efi vfat rw 0 0\n";
    let host = host_root_disk(mounts).expect("test needs /proc/mounts");
    let host_disk = disk_of_partition(&host).unwrap_or(host.clone());
    assert_eq!(host_disk, "/dev/nvme0n1");
    let identity = DiskIdentity::synthetic_for_tests(&host_disk);
    let err = ex
        .run_destructive(CommandSpec::new("true"), &identity, "op-guard-test", &Some(host), Ok(()))
        .unwrap_err();
    assert_eq!(err.code, "SF-DISK-010", "deve recusar destrutivo no disco do rootfs vivo");
}

#[test]
fn probe_missing_disk_is_disk_001() {
    let failed = exec_result(Some(32), "", "lsblk: /dev/nonexistent-disk-x: not a block device");
    let err = DiskIdentity::probe(
        "/dev/nonexistent-disk-x",
        &failed,
        Err(SysforgeError::new(ErrorDomain::Disk, 1, "x")),
        &PropertyMap::new(),
    )
    .unwrap_err();
    assert_eq!(err.code, "SF-DISK-001");
    assert_eq!(err.message, "Dispositivo /dev/nonexistent-disk-x não encontrado");
}

#[test]
fn capability_report_groups() {
    let mut located: Vec<Option<String>> = vec![None; 30];
    for i in 0..12 {
        located[i] = Some(format!("/usr/bin/{}", TOOL_NAMES[i]));
    }
    let rep = probe_capabilities(&located, true, true, true, &vec![true, true, true, true]);
    let core = rep.groups.iter().find(|g| g.group == "core").expect("grupo core sempre existe");
    assert!(core.present >= 10, "no Mint 22.3 as ferramentas essenciais vêm por padrão");
    assert_eq!(core.total, 20);
}

#[test]
fn host_disk_guard_refuses_the_rootfs_disk() {
    let ex = Executor::new(ExecutorMode::Real);
    let mounts = "sysfs /sys sysfs rw 0 0\n/dev/sda2 / ext4 rw,relatime 0 0\n/dev/sda1 /boot/efi vfat rw 0 0\n";
    let host = host_root_disk(mounts);
    assert_eq!(host.as_deref(), Some("/dev/sda2"));
    let err = ex
        .run_destructive(CommandSpec::new("true"), &DiskIdentity::synthetic_for_tests("/dev/sda"), "op-guard-test", &host, Ok(()))
        .unwrap_err();
    assert_eq!(err.code, "SF-DISK-010");
    // another disk passes the guard
    let ok = ex.run_destructive(CommandSpec::new("true"), &DiskIdentity::synthetic_for_tests("/dev/sdb"), "op-guard-test", &host, Ok(()));
    assert!(matches!(ok, Ok(RunPlan::Execute(_, Risk::Destructive))));
}

#[test]
fn partition_to_disk_mapping() {
    assert_eq!(disk_of_partition("/dev/sda2").as_deref(), Some("/dev/sda"));
    assert_eq!(disk_of_partition("/dev/nvme0n1p3").as_deref(), Some("/dev/nvme0n1"));
    assert_eq!(disk_of_partition("/dev/sda").as_deref(), Some("/dev/sda"));
}

#[test]
fn whole_disks_and_long_partition_numbers() {
    assert_eq!(disk_of_partition("/dev/nvme0n1").as_deref(), Some("/dev/nvme0n1"));
    assert_eq!(disk_of_partition("/dev/sda12").as_deref(), Some("/dev/sda"));
    assert_eq!(disk_of_partition("/dev/mmcblk0").as_deref(), Some("/dev/mmcblk0"));
    assert_eq!(disk_of_partition("/dev/mmcblk0p1").as_deref(), Some("/dev/mmcblk0"));
    assert_eq!(disk_of_partition("/dev/nvme1n1p12").as_deref(), Some("/dev/nvme1n1"));
    assert_eq!(disk_of_partition("sdb3").as_deref(), Some("sdb"));
    assert_eq!(partition_base_of("loop0p1"), "loop0");
    assert_eq!(partition_base_of("md127"), "md127");
    assert_eq!(partition_base_of("vda"), "vda");
    assert_eq!(partition_base_of("xvdb10"), "xvdb");
}

#[test]
fn revalidate_synthetic_is_noop() {
    let id = DiskIdentity::synthetic_for_tests("/dev/zzz9");
    let probe = Err(SysforgeError::new(ErrorDomain::Disk, 1, "Dispositivo /dev/zzz9 não encontrado"));
    assert!(id.revalidate_now(probe).is_ok());
}

#[test]
fn revalidate_detects_a_swapped_disk() {
    let planned = DiskIdentity {
        path: "/dev/sdb".to_string(),
        model: Some("A".to_string()),
        serial: Some("S1".to_string()),
        size_bytes: 10,
        synthetic: false,
    };
    let now = DiskIdentity { serial: Some("S2".to_string()), ..planned.clone() };
    let err = planned.revalidate_now(Ok(now)).unwrap_err();
    assert_eq!(err.code, "SF-DISK-009");
    assert!(planned.revalidate_now(Ok(planned.clone())).is_ok());
}

#[test]
fn authorization_is_fail_closed() {
    // destructive: refused in every mode
    assert!(matches!(authorize(DaemonMode::System, 0, 0, "v1.disk.wipe", Ok(0)), Decision::Deny(_)));
    // privileged in dev mode: refused
    assert!(matches!(authorize(DaemonMode::Dev, 1000, 1000, METHOD_BOOT_SET_NEXT, Ok(0)), Decision::Deny(_)));
    // privileged in system mode: the polkit verdict decides
    assert!(matches!(authorize(DaemonMode::System, 1000, 0, METHOD_BOOT_SET_NEXT, Ok(0)), Decision::Allow));
    assert!(matches!(authorize(DaemonMode::System, 1000, 0, METHOD_BOOT_SET_NEXT, Ok(1)), Decision::Deny(_)));
    // read-only in dev mode: same user only
    assert!(matches!(authorize(DaemonMode::Dev, 1000, 1000, METHOD_ECHO, Ok(0)), Decision::Allow));
    assert!(matches!(authorize(DaemonMode::Dev, 1001, 1000, METHOD_ECHO, Ok(0)), Decision::Deny(_)));
}

#[test]
fn destructive_denials_explain_themselves() {
    match authorize(DaemonMode::Dev, 1000, 1000, "v1.disk.wipe", Ok(0)) {
        Decision::Deny(w) => {
            assert_eq!(w.code, "SF-AUTH-002");
            assert!(!w.recommendation.is_empty());
            assert!(w.recommendation.starts_with("Isto é por segurança."));
        }
        Decision::Allow => panic!("destructive calls are refused in dev mode"),
    }
    match authorize(DaemonMode::System, 0, 0, "v1.disk.wipe", Ok(0)) {
        Decision::Deny(w) => {
            assert_eq!(w.code, "SF-AUTH-004");
            assert!(w.recommendation.starts_with("O deploy real chega"));
        }
        Decision::Allow => panic!("destructive calls are refused in system mode"),
    }
}

#[test]
fn happy_path_transitions() {
    let mut op = OperationRecord::new("op-happy").unwrap();
    for to in [
        OperationState::Planning,
        OperationState::Validating,
        OperationState::Staging,
        OperationState::Ready,
        OperationState::Rebooting,
        OperationState::BootedRecovery,
        OperationState::Deploying,
        OperationState::Configuring,
        OperationState::Verifying,
        OperationState::Completed,
    ] {
        let from = op.state.label();
        op.transition(to, None)
            .unwrap_or_else(|e| panic!("transition {} -> {:?} should be legal: {}", from, to, e.to_string()));
    }
    assert_eq!(op.state, OperationState::Completed);
    assert_eq!(op.transitions.len(), 10);
}

#[test]
fn invalid_transitions_rejected() {
    let mut op = OperationRecord::new("op-bad").unwrap();
    assert!(op.transition(OperationState::Deploying, None).is_err());
    op.transition(OperationState::Planning, None).unwrap();
    assert!(op.transition(OperationState::Completed, None).is_err());
    // any active state may fail
    op.transition(OperationState::Failed, None).unwrap();
    // ...but FAILED does not go straight to COMPLETED
    assert!(op.transition(OperationState::Completed, None).is_err());
}

#[test]
fn refused_transition_changes_nothing_and_says_why() {
    let mut op = OperationRecord::new_at("op-x", "2024-01-01T00:00:00+00:00");
    let err = op.transition_at(OperationState::Completed, None, "2024-01-01T00:00:01+00:00").unwrap_err();
    assert_eq!(err.code, "SF-STATE-002");
    assert_eq!(err.message, "Transição inválida de IDLE para COMPLETED");
    assert_eq!(op.state, OperationState::Idle);
    assert!(op.transitions.is_empty());
    assert_eq!(op.updated_at, "2024-01-01T00:00:00+00:00");
    op.transition_at(OperationState::Planning, Some("n".to_string()), "2024-01-01T00:00:02+00:00").unwrap();
    assert_eq!(op.transitions[0].from, OperationState::Idle);
    assert_eq!(op.transitions[0].to, OperationState::Planning);
    assert_eq!(op.updated_at, "2024-01-01T00:00:02+00:00");
}

#[test]
fn checksum_seal_and_verify() {
    let mut op = OperationRecord::new_at("op-sum", "2024-01-01T00:00:00+00:00");
    // a new record is born sealed
    assert!(op.verify_checksum().is_ok());
    assert_eq!(op.checksum, op.compute_checksum());
    // SHA-256 hex: 64 lower-case hex digits
    assert_eq!(op.checksum.len(), 64);
    assert!(op.checksum.chars().all(|c| c.is_ascii_hexdigit() && !c.is_ascii_uppercase()));
    // editing the state by hand is detected
    let mut tampered = op.clone();
    tampered.state = OperationState::Deploying;
    assert_eq!(tampered.verify_checksum().unwrap_err().code, "SF-STATE-003");
    // a transition reseals
    op.transition_at(OperationState::Planning, Some("teste".to_string()), "2024-01-01T00:00:05+00:00").unwrap();
    assert_eq!(op.checksum, op.compute_checksum());
    assert!(op.verify_checksum().is_ok());
    op.seal();
    assert!(op.verify_checksum().is_ok());
}

#[test]
fn transition_now_reseals_the_record() {
    let mut op = OperationRecord::new("op-persist").unwrap();
    assert_eq!(op.checksum, op.compute_checksum());
    op.transition(OperationState::Planning, Some("teste".into())).unwrap();
    assert_eq!(op.state, OperationState::Planning);
    assert_eq!(op.transitions.len(), 1);
    assert_eq!(op.transitions[0].at, op.updated_at);
    assert_eq!(op.transitions[0].note.as_deref(), Some("teste"));
    assert_eq!(op.checksum, op.compute_checksum());
    let err = op.transition(OperationState::Completed, None).unwrap_err();
    assert_eq!(err.code, "SF-STATE-002");
    assert_eq!(op.checksum, op.compute_checksum());
}

#[test]
fn canonical_text_of_a_record() {
    let mut op = OperationRecord::new_at("op-\"q\"", "2024-01-01T00:00:00+00:00");
    op.rollback_possible = Some(true);
    assert_eq!(
        canonical_json(&op),
        "{\"operation_id\":\"op-\\\"q\\\"\",\"state\":\"idle\",\"created_at\":\"2024-01-01T00:00:00+00:00\",\"updated_at\":\"2024-01-01T00:00:00+00:00\",\"mode\":null,\"target\":null,\"disk\":null,\"rollback_possible\":true,\"transitions\":[],\"checksum\":\"\"}"
    );
    op.transition_at(OperationState::Planning, Some("a\nb".to_string()), "t1").unwrap();
    let text = canonical_json(&op);
    assert!(text.ends_with(",\"transitions\":[{\"from\":\"idle\",\"to\":\"planning\",\"at\":\"t1\",\"note\":\"a\\nb\"}],\"checksum\":\"\"}"));
    // the canonical text is valid JSON
    let v: serde_json::Value = serde_json::from_str(&text).unwrap();
    assert_eq!(v["transitions"][0]["note"], "a\nb");
    assert_eq!(v["operation_id"], "op-\"q\"");
}

#[test]
fn checksum_of_known_text() {
    // SHA-256("abc")
    assert_eq!(
        sysforge::state::checksum_hex("abc"),
        "ba7816bf8f01cfea414140de5dae2223b00361a396177a9cb410ff61f20015ad"
    );
}

#[test]
fn exec_result_success_is_exit_zero() {
    assert!(exec_result(Some(0), "", "").success());
    assert!(!exec_result(Some(1), "", "").success());
    assert!(!exec_result(None, "", "").success());
}

#[test]
fn every_command_runs_with_the_c_locale() {
    let plain = CommandSpec::new("lsblk").process_env();
    assert_eq!(plain, vec![("LC_ALL".to_string(), "C".to_string()), ("LANG".to_string(), "C".to_string())]);
    let custom = CommandSpec::new("ls").env("LANG", "pt_BR.UTF-8").process_env();
    assert_eq!(custom.len(), 3);
    assert_eq!(custom[2], ("LANG".to_string(), "pt_BR.UTF-8".to_string()));
}
