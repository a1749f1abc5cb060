//! Power control and "reboot straight into the BIOS".
//!
//! UEFI defines the `OsIndications` variable: when the OS writes the
//! `EFI_OS_INDICATIONS_BOOT_TO_FIRMWARE_UI` bit there (non-volatile), the
//! next boot opens the firmware setup screen instead of the bootloader.
//! `OsIndicationsSupported` says whether the firmware honours the bit.
//! Writing needs root (the daemon in system mode).

use vstd::prelude::*;

use crate::error::{error_code, ErrorDomain, SysforgeError};
use crate::executor::{arg_views, CommandSpec, ExecResult, Executor, ExecutorMode, Risk, RunPlan};
use crate::text::push_str;

verus! {

/// OsIndicationsSupported (what the firmware accepts).
pub const EFIVAR_OS_INDICATIONS_SUPPORTED: &'static str =
    "/sys/firmware/efi/efivars/OsIndicationsSupported-8be4df61-93ca-11d2-aa0d-00e098032b8c";
/// OsIndications (what the OS asks of the next boot).
pub const EFIVAR_OS_INDICATIONS: &'static str =
    "/sys/firmware/efi/efivars/OsIndications-8be4df61-93ca-11d2-aa0d-00e098032b8c";
/// Bit 0: open the firmware setup UI on the next boot.
pub const INDICATION_BOOT_TO_FIRMWARE_UI: u64 = 1;

/// Little-endian value of a byte sequence.
pub open spec fn le_value(s: Seq<u8>) -> nat
    decreases s.len(),
{
    if s.len() == 0 {
        0
    } else {
        s[0] as nat + 256 * le_value(s.drop_first())
    }
}

/// The u64 an efivar file holds (4 bytes of attributes, then the value).
pub open spec fn efivar_u64(bytes: Option<Seq<u8>>) -> Option<u64> {
    match bytes {
        Some(b) => if b.len() >= 12 {
            Some(le_value(b.subrange(4, 12)) as u64)
        } else {
            None
        },
        None => None,
    }
}

/// 256 to the power `n`.
pub open spec fn pow256(n: nat) -> nat
    decreases n,
{
    if n == 0 {
        1
    } else {
        256 * pow256((n - 1) as nat)
    }
}

proof fn lemma_le_value_bound(s: Seq<u8>)
    ensures
        le_value(s) < pow256(s.len()),
    decreases s.len(),
{
    if s.len() > 0 {
        lemma_le_value_bound(s.drop_first());
        let p = pow256((s.len() - 1) as nat);
        assert(s[0] as nat + 256 * le_value(s.drop_first()) < 256 * p) by (nonlinear_arith)
            requires
                s[0] < 256,
                le_value(s.drop_first()) < p,
        ;
    }
}

proof fn lemma_pow256_le_u64(n: nat)
    requires
        n <= 8,
    ensures
        pow256(n) <= 0x1_0000_0000_0000_0000,
    decreases 8 - n,
{
    if n < 8 {
        lemma_pow256_le_u64(n + 1);
        assert(pow256(n + 1) == 256 * pow256(n));
    } else {
        reveal_with_fuel(pow256, 9);
    }
}

/// The `n` little-endian bytes of `x`.
pub open spec fn le_bytes(x: nat, n: nat) -> Seq<u8>
    decreases n,
{
    if n == 0 {
        seq![]
    } else {
        seq![(x % 256) as u8] + le_bytes(x / 256, (n - 1) as nat)
    }
}

proof fn lemma_le_bytes_value(x: nat, n: nat)
    requires
        x < pow256(n),
    ensures
        le_bytes(x, n).len() == n,
        le_value(le_bytes(x, n)) == x,
    decreases n,
{
    if n > 0 {
        let p = pow256((n - 1) as nat);
        assert(x / 256 < p) by (nonlinear_arith)
            requires
                x < 256 * p,
        ;
        lemma_le_bytes_value(x / 256, (n - 1) as nat);
        let b = le_bytes(x, n);
        assert(b.drop_first() =~= le_bytes(x / 256, (n - 1) as nat));
        assert(x % 256 + 256 * (x / 256) == x) by (nonlinear_arith);
    } else {
        assert(x == 0);
    }
}

proof fn lemma_u64_below_pow256_8(v: u64)
    ensures
        (v as nat) < pow256(8),
{
    reveal_with_fuel(pow256, 9);
}

/// An efivar file is 4 bytes of attributes and then the value: whatever
/// the attributes and whatever follows, reading a file whose bytes 4..12
/// are the little-endian bytes of `v` gives `v`.
pub proof fn law_efivar_value_follows_attributes(attrs: Seq<u8>, v: u64, rest: Seq<u8>)
    requires
        attrs.len() == 4,
    ensures
        efivar_u64(Some(attrs + le_bytes(v as nat, 8) + rest)) == Some(v),
{
    lemma_u64_below_pow256_8(v);
    lemma_le_bytes_value(v as nat, 8);
    let b = attrs + le_bytes(v as nat, 8) + rest;
    assert(b.subrange(4, 12) =~= le_bytes(v as nat, 8));
}

/// Reboot into the firmware setup is supported exactly when bit 0 of the
/// value after the attributes is set, whatever the attributes.
pub proof fn law_firmware_ui_bit_decides(attrs: Seq<u8>, v: u64, rest: Seq<u8>)
    requires
        attrs.len() == 4,
    ensures
        (match efivar_u64(Some(attrs + le_bytes(v as nat, 8) + rest)) {
            Some(mask) => mask & 1 != 0,
            None => false,
        }) == (v % 2 == 1),
{
    law_efivar_value_follows_attributes(attrs, v, rest);
    assert(v & 1 != 0 <==> v % 2 == 1) by (bit_vector);
}

/// What `arm_payload` writes reads back as the firmware-UI indication:
/// a read of the armed variable gives exactly that bit.
pub proof fn law_armed_payload_reads_back()
    ensures
        efivar_u64(Some(seq![7u8, 0u8, 0u8, 0u8, 1u8, 0u8, 0u8, 0u8, 0u8, 0u8, 0u8, 0u8]))
            == Some(INDICATION_BOOT_TO_FIRMWARE_UI),
{
    law_efivar_value_follows_attributes(seq![7u8, 0u8, 0u8, 0u8], 1u64, Seq::<u8>::empty());
    reveal_with_fuel(le_bytes, 9);
    assert(seq![7u8, 0u8, 0u8, 0u8] + le_bytes(1nat, 8) + Seq::<u8>::empty() =~= seq![
        7u8,
        0u8,
        0u8,
        0u8,
        1u8,
        0u8,
        0u8,
        0u8,
        0u8,
        0u8,
        0u8,
        0u8,
    ]);
}

/// Reads an efivar as a little-endian u64; `bytes` is the file content,
/// `None` when it could not be read (no permission or no variable).
pub fn read_var_u64(bytes: &Option<Vec<u8>>) -> (r: Option<u64>)
    ensures
        r == efivar_u64(match bytes {
            Some(b) => Some(b@),
            None => None,
        }),
{
    match bytes {
        Some(b) => {
            if b.len() < 12 {
                return None;
            }
            let ghost v = b@.subrange(4, 12);
            let mut acc: u64 = 0;
            let mut k: usize = 12;
            proof {
                assert(b@.subrange(12, 12) =~= Seq::<u8>::empty());
            }
            while k > 4
                invariant
                    4 <= k <= 12,
                    12 <= b@.len(),
                    v == b@.subrange(4, 12),
                    acc as nat == le_value(b@.subrange(k as int, 12)),
                    (acc as nat) < pow256((12 - k) as nat),
                decreases k,
            {
                let byte = b[k - 1];
                proof {
                    assert(b@.subrange(k - 1, 12).drop_first() =~= b@.subrange(k as int, 12));
                    lemma_le_value_bound(b@.subrange(k - 1, 12));
                    lemma_pow256_le_u64((12 - k + 1) as nat);
                    assert(byte as nat + 256 * (acc as nat) == le_value(b@.subrange(k - 1, 12)));
                }
                acc = byte as u64 + 256 * acc;
                k -= 1;
            }
            Some(acc)
        },
        None => None,
    }
}

/// Does the firmware support "reboot into setup"? `supported_var` is the
/// content of `OsIndicationsSupported` (`None` when unreadable).
pub fn firmware_reboot_supported(supported_var: &Option<Vec<u8>>) -> (b: bool)
    ensures
        b == (match efivar_u64(match supported_var {
            Some(v) => Some(v@),
            None => None,
        }) {
            Some(mask) => mask & 1 != 0,
            None => false,
        }),
{
    match read_var_u64(supported_var) {
        Some(mask) => mask & INDICATION_BOOT_TO_FIRMWARE_UI != 0,
        None => false,
    }
}

/// The bytes written to `OsIndications`: attributes NON_VOLATILE |
/// BOOTSERVICE_ACCESS | RUNTIME_ACCESS (7), then BOOT_TO_FIRMWARE_UI as a
/// little-endian u64. Non-volatile is essential: the firmware only sees the
/// request on the NEXT boot.
pub fn arm_payload() -> (p: Vec<u8>)
    ensures
        p@ == seq![7u8, 0u8, 0u8, 0u8, 1u8, 0u8, 0u8, 0u8, 0u8, 0u8, 0u8, 0u8],
{
    let mut p: Vec<u8> = Vec::new();
    p.push(7);
    p.push(0);
    p.push(0);
    p.push(0);
    p.push(1);
    let mut i: usize = 0;
    while i < 7
        invariant
            i <= 7,
            p@ == seq![7u8, 0u8, 0u8, 0u8, 1u8] + Seq::new(i as nat, |_k: int| 0u8),
        decreases 7 - i,
    {
        p.push(0);
        i += 1;
        assert(p@ =~= seq![7u8, 0u8, 0u8, 0u8, 1u8] + Seq::new(i as nat, |_k: int| 0u8));
    }
    assert(p@ =~= seq![7u8, 0u8, 0u8, 0u8, 1u8, 0u8, 0u8, 0u8, 0u8, 0u8, 0u8, 0u8]);
    p
}

/// The error when `OsIndications` could not be written (`detail` says why).
pub fn arm_failed(detail: &str) -> (e: SysforgeError)
    ensures
        e.code@ == error_code(ErrorDomain::Uefi, 2),
        e.technical@ == "escrever "@ + EFIVAR_OS_INDICATIONS@ + ": "@ + detail@,
{
    let mut tech = String::from_str("escrever ");
    push_str(&mut tech, EFIVAR_OS_INDICATIONS);
    push_str(&mut tech, ": ");
    push_str(&mut tech, detail);
    SysforgeError::new(ErrorDomain::Uefi, 2, "Não foi possível armar o reboot para o firmware (BIOS)")
        .with_technical(tech.as_str()).with_recommendation(
        "A escrita exige root. Use o daemon em modo sistema (`sysforge daemon system`) — o polkit pedirá sua senha.",
    )
}

/// Reboots the machine NOW (`systemctl reboot`, low risk).
pub fn system_reboot(executor: &Executor) -> (p: RunPlan)
    ensures
        p matches RunPlan::Execute(s, r) || p matches RunPlan::Simulate(s, r),
        match p {
            RunPlan::Execute(s, r) => executor.spec_mode() == ExecutorMode::Real && r == Risk::LowRisk
                && s.program@ == "systemctl"@ && arg_views(s.args@) == seq!["reboot"@],
            RunPlan::Simulate(s, r) => executor.spec_mode() == ExecutorMode::DryRun && r
                == Risk::LowRisk && s.program@ == "systemctl"@ && arg_views(s.args@) == seq!["reboot"@],
        },
{
    let spec = CommandSpec::new("systemctl").arg("reboot").timeout(30);
    assert(arg_views(spec.args@) =~= seq!["reboot"@]);
    executor.run_low_risk(spec)
}

/// Powers the machine off NOW (`systemctl poweroff`, low risk).
pub fn system_poweroff(executor: &Executor) -> (p: RunPlan)
    ensures
        match p {
            RunPlan::Execute(s, r) => executor.spec_mode() == ExecutorMode::Real && r == Risk::LowRisk
                && s.program@ == "systemctl"@ && arg_views(s.args@) == seq!["poweroff"@],
            RunPlan::Simulate(s, r) => executor.spec_mode() == ExecutorMode::DryRun && r
                == Risk::LowRisk && s.program@ == "systemctl"@ && arg_views(s.args@) == seq![
                "poweroff"@,
            ],
        },
{
    let spec = CommandSpec::new("systemctl").arg("poweroff").timeout(30);
    assert(arg_views(spec.args@) =~= seq!["poweroff"@]);
    executor.run_low_risk(spec)
}

/// Reboot straight into the firmware setup. The primary path is
/// `systemctl reboot --firmware-setup`; refused with `SF-UEFI-001` when the
/// firmware does not announce support (`supported`).
pub fn reboot_to_firmware(executor: &Executor, supported: bool) -> (r: Result<RunPlan, SysforgeError>)
    ensures
        !supported ==> (r matches Err(e) && e.code@ == error_code(ErrorDomain::Uefi, 1)),
        supported ==> (r matches Ok(p) && match p {
            RunPlan::Execute(s, k) => executor.spec_mode() == ExecutorMode::Real && k == Risk::LowRisk
                && s.program@ == "systemctl"@ && arg_views(s.args@) == seq![
                "reboot"@,
                "--firmware-setup"@,
            ],
            RunPlan::Simulate(s, k) => executor.spec_mode() == ExecutorMode::DryRun && k
                == Risk::LowRisk && s.program@ == "systemctl"@ && arg_views(s.args@) == seq![
                "reboot"@,
                "--firmware-setup"@,
            ],
        }),
{
    if !supported {
        return Err(SysforgeError::new(
            ErrorDomain::Uefi,
            1,
            "Este firmware não anuncia suporte a reboot-para-setup",
        ).with_technical("bit BOOT_TO_FIRMWARE_UI ausente em OsIndicationsSupported")
            .with_recommendation(
            "Entre no setup manualmente no boot (F2/Del) ou atualize o firmware.",
        ));
    }
    let spec = CommandSpec::new("systemctl").arg("reboot").arg("--firmware-setup").timeout(30);
    assert(arg_views(spec.args@) =~= seq!["reboot"@, "--firmware-setup"@]);
    Ok(executor.run_low_risk(spec))
}

/// After `systemctl reboot --firmware-setup`: when it failed, the fallback
/// is to arm `OsIndications` by hand and reboot.
pub fn firmware_fallback_needed(r: &ExecResult) -> (b: bool)
    ensures
        b == (r.exit_code != Some(0i32)),
{
    !r.success()
}

/// The refusal of `sysforge power` without `--confirm` (`SF-AUTH-006`):
/// the action is immediate and asks nothing, so the flag is the consent.
pub fn confirm_required(off: bool) -> (e: SysforgeError)
    ensures
        e.code@ == error_code(ErrorDomain::Auth, 6),
        e.message@ == "Use --confirm para "@ + (if off { "desligar"@ } else { "reiniciar"@ }) + " agora"@,
        e.recommendation@ == "`sysforge power "@ + (if off { "off"@ } else { "reboot"@ })
            + " --confirm` — ação imediata e sem prompt."@,
{
    let mut message = String::from_str("Use --confirm para ");
    push_str(&mut message, if off { "desligar" } else { "reiniciar" });
    push_str(&mut message, " agora");
    let mut rec = String::from_str("`sysforge power ");
    push_str(&mut rec, if off { "off" } else { "reboot" });
    push_str(&mut rec, " --confirm` — ação imediata e sem prompt.");
    SysforgeError::new(ErrorDomain::Auth, 6, message.as_str()).with_recommendation(rec.as_str())
}

} // verus!
