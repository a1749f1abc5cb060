use sysforge::boot::efi::parse_efibootmgr;
use sysforge::boot::esp::EspInfo;
use sysforge::capability::probe_capabilities;
use sysforge::disk::identity::DiskIdentity;
use sysforge::doctor::{
    diagnose, finding_line, next_steps, system_disk, tally, tally_line, DaemonSeen, DoctorProbe, Verdict,
    APT_BUILD_DEPS, APT_RUNTIME_DEPS,
};
use sysforge::error::{ErrorDomain, SysforgeError};

fn located(missing: &[usize]) -> Vec<Option<String>> {
    (0..30).map(|i| if missing.contains(&i) { None } else { Some(format!("/usr/bin/t{i}")) }).collect()
}

fn esp(free: u64) -> EspInfo {
    EspInfo {
        mounted: true,
        mount_point: Some("/boot/efi".to_string()),
        device: Some("/dev/nvme0n1p1".to_string()),
        fs_type: Some("vfat".to_string()),
        mount_options: Some("rw,umask=0077".to_string()),
        restricted_permissions: true,
        total_bytes: 536870912,
        free_bytes: free,
    }
}

fn healthy() -> DoctorProbe {
    DoctorProbe {
        caps: probe_capabilities(&located(&[]), true, true, true, &vec![true, true, true, true]),
        is_uefi: true,
        secure_boot: Some(false),
        esp: esp(400000000),
        system_disk: Some((
            "/dev/nvme0n1p2".to_string(),
            Ok(DiskIdentity {
                path: "/dev/nvme0n1".to_string(),
                model: Some("WDC".to_string()),
                serial: Some("21160X".to_string()),
                size_bytes: 256060514304,
                synthetic: false,
            }),
        )),
        efi: Ok(parse_efibootmgr("BootCurrent: 0001\nBoot0001* Debian\tHD(2,GPT,abc)/File(\\EFI\\debian\\grubx64.efi)\nBoot0002  Setup\tFvFile(1)\n")),
        daemon: Some(DaemonSeen {
            socket: "/run/sysforge/osd.sock".to_string(),
            version: "\"0.1.0\"".to_string(),
            mode: "\"system\"".to_string(),
        }),
        agent_present: true,
    }
}

#[test]
fn healthy_machine_passes_every_check() {
    let p = healthy();
    let fs = diagnose(&p);
    assert_eq!(fs.len(), 11);
    assert!(fs.iter().all(|f| f.status == Verdict::Pass));
    assert_eq!(fs[0].detail, "20/20 presentes — particionamento, formatação, UKI e boot cobertos");
    assert_eq!(fs[3].detail, "/dev/nvme0n1p1 · 381 MiB livres de 512 MiB · escrita via daemon (umask=0077)");
    assert_eq!(
        fs[4].detail,
        "/dev/nvme0n1 em /dev/nvme0n1p2 · serial 21160X — guard de disco vivo armado (SF-DISK-010)"
    );
    assert_eq!(fs[5].detail, "2 entradas legíveis · boot atual 0001 · leitura sem root OK");
    assert_eq!(fs[6].detail, "v\"0.1.0\" · modo \"system\" · /run/sysforge/osd.sock");
    assert_eq!(tally(&fs), (11, 0, 0));
    assert_eq!(tally_line(tally(&fs), false), "  ✔ 11 em ordem · ⚠ 0 · ✖ 0 críticos");
    assert_eq!(
        finding_line(&fs[2], false),
        "  ✔ UEFI + Secure Boot · UEFI nativo · Secure Boot desabilitado — UKIs de teste bootam direto"
    );
    assert_eq!(
        next_steps(&p),
        vec!["Tudo acima de uma vez: bash scripts/bootstrap-linux.sh (idempotente, com --check)".to_string()]
    );
}

#[test]
fn degraded_machine_reports_each_gap() {
    let mut p = healthy();
    // jq (core), mokutil, smartctl and qemu-img missing; no headers, no KVM.
    p.caps = probe_capabilities(&located(&[15, 22, 23, 29]), false, true, false, &vec![true, false, true, true]);
    p.secure_boot = None;
    p.esp = esp(1048576);
    p.system_disk = Some(("/dev/sda3".to_string(), Err(SysforgeError::new(ErrorDomain::Disk, 1, "Dispositivo /dev/sda não encontrado"))));
    p.efi = Err(SysforgeError::new(ErrorDomain::Boot, 1, "Não foi possível ler as entradas de boot UEFI"));
    p.daemon = None;
    p.agent_present = false;
    let fs = diagnose(&p);
    let statuses: Vec<Verdict> = fs.iter().map(|f| f.status).collect();
    assert_eq!(
        statuses,
        vec![
            Verdict::Fail,
            Verdict::Warn,
            Verdict::Warn,
            Verdict::Warn,
            Verdict::Warn,
            Verdict::Warn,
            Verdict::Warn,
            Verdict::Warn,
            Verdict::Warn,
            Verdict::Warn,
            Verdict::Warn
        ]
    );
    assert_eq!(fs[0].detail, "faltando: jq (jq)");
    assert_eq!(fs[1].detail, "mokutil ausente (pacote mokutil) — só afeta estados MOK/Secure Boot");
    assert_eq!(fs[2].detail, "UEFI nativo · valor de Secure Boot ilegível (SF-UEFI-001)");
    assert_eq!(fs[3].detail, "montada em /dev/nvme0n1p1 mas só 1,0 MiB livres — risco de estourar com UKIs");
    assert_eq!(fs[4].detail, "sondagem falhou: SF-DISK-001 (Dispositivo /dev/sda não encontrado)");
    assert_eq!(fs[5].detail, "efibootmgr falhou: SF-BOOT-001 — Não foi possível ler as entradas de boot UEFI");
    assert_eq!(tally(&fs), (0, 10, 1));
    assert_eq!(
        next_steps(&p),
        vec![
            format!("Compilar o app desktop:\n      {APT_BUILD_DEPS}"),
            format!("Ferramentas recomendadas (SMART, Windows, QEMU):\n      {APT_RUNTIME_DEPS}"),
            "Tudo acima de uma vez: bash scripts/bootstrap-linux.sh (idempotente, com --check)".to_string(),
            "Subir o daemon dev (somente leitura): sysforge daemon run".to_string(),
        ]
    );
}

#[test]
fn missing_policykit_and_unknown_rootfs_fail() {
    let mut p = healthy();
    p.caps = probe_capabilities(&located(&[20]), true, true, true, &vec![true, true, true, true]);
    p.is_uefi = false;
    p.esp.mounted = false;
    p.system_disk = None;
    let fs = diagnose(&p);
    assert_eq!(fs[1].status, Verdict::Fail);
    assert_eq!(fs[2].detail, "máquina não boota em UEFI — plataforma exige UEFI nativo");
    assert_eq!(fs[3].detail, "não montada — SF-BOOT-002: instalação UEFI indisponível");
    assert_eq!(fs[4].detail, "não consegui determinar o disco do rootfs (/proc/mounts)");
    assert_eq!(fs[10].detail, "pkexec ausente — modo privilegiado não funciona");
    let (ok, warn, fail) = tally(&fs);
    assert_eq!(ok + warn + fail, fs.len());
    assert_eq!(fail, 5);
}

#[test]
fn system_disk_strips_the_partition() {
    assert_eq!(system_disk("/dev/nvme0n1p2"), "/dev/nvme0n1");
    assert_eq!(system_disk("/dev/sda3"), "/dev/sda");
    assert_eq!(system_disk("/dev/mapper/root"), "/dev/mapper/root");
}
