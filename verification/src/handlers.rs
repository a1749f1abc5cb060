//! Dispatch decisions of the daemon's v1 methods: which handler a method
//! goes to, the explicit confirmation every effectful method demands, the
//! required parameters, and the boot-entry checks made before the
//! firmware is touched.

use vstd::prelude::*;

use crate::boot::efi::{firmware_internal, EfiBootEntry, EfiBootState, EntryV};
use crate::daemon::DaemonMode;
use crate::error::{error_code, ErrorDomain, SysforgeError};
use crate::executor::{arg_views, CommandSpec};
use crate::ipc::protocol::{destructive_names, privileged_names, 
    METHOD_BOOT_ARM_FIRMWARE, METHOD_BOOT_CLEAR_NEXT, METHOD_BOOT_REBOOT_TO_FIRMWARE, METHOD_BOOT_REMOVE_ENTRY,
    METHOD_BOOT_SET_NEXT, METHOD_BOOT_SNAPSHOT, METHOD_CAPABILITIES, METHOD_DAEMON_INFO, METHOD_DAEMON_SHUTDOWN,
    METHOD_DISKS_LIST, METHOD_ECHO, METHOD_EFI_ENTRIES, METHOD_SYSTEM_INFO, METHOD_SYSTEM_POWEROFF,
    METHOD_SYSTEM_REBOOT,
};
use crate::text::{chars_of, clone_string, push_str, str_eq};

verus! {

/// The handler a method goes to.
#[derive(Debug, Clone, Copy, PartialEq, Eq, Structural)]
pub enum Route {
    Echo,
    SystemInfo,
    DisksList,
    EfiEntries,
    Capabilities,
    DaemonInfo,
    BootSnapshot,
    BootSetNext,
    BootClearNext,
    BootRemoveEntry,
    BootArmFirmware,
    BootRebootToFirmware,
    SystemReboot,
    SystemPoweroff,
    DaemonShutdown,
    Unknown,
}

/// The route of a method name.
pub open spec fn route_of(m: Seq<char>) -> Route {
    if m == METHOD_ECHO@ { Route::Echo }
    else if m == METHOD_SYSTEM_INFO@ { Route::SystemInfo }
    else if m == METHOD_DISKS_LIST@ { Route::DisksList }
    else if m == METHOD_EFI_ENTRIES@ { Route::EfiEntries }
    else if m == METHOD_CAPABILITIES@ { Route::Capabilities }
    else if m == METHOD_DAEMON_INFO@ { Route::DaemonInfo }
    else if m == METHOD_BOOT_SNAPSHOT@ { Route::BootSnapshot }
    else if m == METHOD_BOOT_SET_NEXT@ { Route::BootSetNext }
    else if m == METHOD_BOOT_CLEAR_NEXT@ { Route::BootClearNext }
    else if m == METHOD_BOOT_REMOVE_ENTRY@ { Route::BootRemoveEntry }
    else if m == METHOD_BOOT_ARM_FIRMWARE@ { Route::BootArmFirmware }
    else if m == METHOD_BOOT_REBOOT_TO_FIRMWARE@ { Route::BootRebootToFirmware }
    else if m == METHOD_SYSTEM_REBOOT@ { Route::SystemReboot }
    else if m == METHOD_SYSTEM_POWEROFF@ { Route::SystemPoweroff }
    else if m == METHOD_DAEMON_SHUTDOWN@ { Route::DaemonShutdown }
    else { Route::Unknown }
}

/// The method of the protocol registry that a handler serves.
pub open spec fn route_method(r: Route) -> Option<Seq<char>> {
    match r {
        Route::Echo => Some(METHOD_ECHO@),
        Route::SystemInfo => Some(METHOD_SYSTEM_INFO@),
        Route::DisksList => Some(METHOD_DISKS_LIST@),
        Route::EfiEntries => Some(METHOD_EFI_ENTRIES@),
        Route::Capabilities => Some(METHOD_CAPABILITIES@),
        Route::DaemonInfo => Some(METHOD_DAEMON_INFO@),
        Route::BootSnapshot => Some(METHOD_BOOT_SNAPSHOT@),
        Route::BootSetNext => Some(METHOD_BOOT_SET_NEXT@),
        Route::BootClearNext => Some(METHOD_BOOT_CLEAR_NEXT@),
        Route::BootRemoveEntry => Some(METHOD_BOOT_REMOVE_ENTRY@),
        Route::BootArmFirmware => Some(METHOD_BOOT_ARM_FIRMWARE@),
        Route::BootRebootToFirmware => Some(METHOD_BOOT_REBOOT_TO_FIRMWARE@),
        Route::SystemReboot => Some(METHOD_SYSTEM_REBOOT@),
        Route::SystemPoweroff => Some(METHOD_SYSTEM_POWEROFF@),
        Route::DaemonShutdown => Some(METHOD_DAEMON_SHUTDOWN@),
        Route::Unknown => None,
    }
}

/// The method names of the protocol registry.
pub open spec fn registry_method(m: Seq<char>) -> bool {
    m == METHOD_ECHO@ || m == METHOD_SYSTEM_INFO@ || m == METHOD_DISKS_LIST@ || m == METHOD_EFI_ENTRIES@
        || m == METHOD_CAPABILITIES@ || m == METHOD_DAEMON_INFO@ || m == METHOD_BOOT_SNAPSHOT@
        || m == METHOD_BOOT_SET_NEXT@ || m == METHOD_BOOT_CLEAR_NEXT@ || m == METHOD_BOOT_REMOVE_ENTRY@
        || m == METHOD_BOOT_ARM_FIRMWARE@ || m == METHOD_BOOT_REBOOT_TO_FIRMWARE@ || m == METHOD_SYSTEM_REBOOT@
        || m == METHOD_SYSTEM_POWEROFF@ || m == METHOD_DAEMON_SHUTDOWN@
}

/// Every method of the registry goes to the handler of the same name, and
/// nothing else goes to any handler: asked to power off, the daemon powers
/// off; asked to reboot, it reboots.
pub proof fn law_route_serves_its_method(m: Seq<char>)
    ensures
        registry_method(m) <==> route_of(m) != Route::Unknown,
        route_of(m) != Route::Unknown ==> route_method(route_of(m)) == Some(m),
{
}

/// Two different methods never share a handler.
pub proof fn law_route_is_injective(m1: Seq<char>, m2: Seq<char>)
    requires
        route_of(m1) != Route::Unknown,
        route_of(m1) == route_of(m2),
    ensures
        m1 == m2,
{
    law_route_serves_its_method(m1);
    law_route_serves_its_method(m2);
}

/// Exec form of [`route_of`].
pub fn route(method: &str) -> (r: Route)
    ensures
        r == route_of(method@),
{
    if str_eq(method, METHOD_ECHO) { Route::Echo }
    else if str_eq(method, METHOD_SYSTEM_INFO) { Route::SystemInfo }
    else if str_eq(method, METHOD_DISKS_LIST) { Route::DisksList }
    else if str_eq(method, METHOD_EFI_ENTRIES) { Route::EfiEntries }
    else if str_eq(method, METHOD_CAPABILITIES) { Route::Capabilities }
    else if str_eq(method, METHOD_DAEMON_INFO) { Route::DaemonInfo }
    else if str_eq(method, METHOD_BOOT_SNAPSHOT) { Route::BootSnapshot }
    else if str_eq(method, METHOD_BOOT_SET_NEXT) { Route::BootSetNext }
    else if str_eq(method, METHOD_BOOT_CLEAR_NEXT) { Route::BootClearNext }
    else if str_eq(method, METHOD_BOOT_REMOVE_ENTRY) { Route::BootRemoveEntry }
    else if str_eq(method, METHOD_BOOT_ARM_FIRMWARE) { Route::BootArmFirmware }
    else if str_eq(method, METHOD_BOOT_REBOOT_TO_FIRMWARE) { Route::BootRebootToFirmware }
    else if str_eq(method, METHOD_SYSTEM_REBOOT) { Route::SystemReboot }
    else if str_eq(method, METHOD_SYSTEM_POWEROFF) { Route::SystemPoweroff }
    else if str_eq(method, METHOD_DAEMON_SHUTDOWN) { Route::DaemonShutdown }
    else { Route::Unknown }
}

/// Methods with a real effect: each demands `confirm: true`.
pub open spec fn effectful(r: Route) -> bool {
    r == Route::BootSetNext || r == Route::BootClearNext || r == Route::BootRemoveEntry
        || r == Route::BootArmFirmware || r == Route::BootRebootToFirmware || r == Route::SystemReboot
        || r == Route::SystemPoweroff || r == Route::DaemonShutdown
}

pub fn needs_confirm(r: Route) -> (b: bool)
    ensures
        b == effectful(r),
{
    match r {
        Route::BootSetNext | Route::BootClearNext | Route::BootRemoveEntry | Route::BootArmFirmware
        | Route::BootRebootToFirmware | Route::SystemReboot | Route::SystemPoweroff | Route::DaemonShutdown => true,
        _ => false,
    }
}

/// Explicit confirmation, never implied: the UI always sends the user's
/// decision. `confirm` is the boolean `confirm` parameter, if present.
pub fn require_confirm(confirm: Option<bool>) -> (r: Result<(), SysforgeError>)
    ensures
        confirm == Some(true) <==> r is Ok,
        r matches Err(e) ==> e.code@ == error_code(ErrorDomain::Auth, 6)
            && e.message@ == "Confirmação explícita ausente — operação NÃO executada"@
            && e.recommendation@ == "Isto protege contra cliques acidentais. Repita com confirm:true (a UI sempre pergunta antes)."@,
{
    if confirm == Some(true) {
        Ok(())
    } else {
        Err(SysforgeError::new(ErrorDomain::Auth, 6, "Confirmação explícita ausente — operação NÃO executada")
            .with_recommendation("Isto protege contra cliques acidentais. Repita com confirm:true (a UI sempre pergunta antes)."))
    }
}

/// A required string parameter `key` (`value` is it, when present and a
/// string).
pub fn require_str(key: &str, value: Option<String>) -> (r: Result<String, SysforgeError>)
    ensures
        match value {
            Some(v) => r matches Ok(s) && s@ == v@,
            None => r matches Err(e) && e.code@ == error_code(ErrorDomain::Io, 12)
                && e.message@ == "Parâmetro obrigatório ausente: "@ + key@,
        },
{
    match value {
        Some(v) => Ok(v),
        None => {
            let mut msg = String::from_str("Parâmetro obrigatório ausente: ");
            push_str(&mut msg, key);
            Err(SysforgeError::new(ErrorDomain::Io, 12, msg.as_str()))
        },
    }
}

pub const PROTOCOL_SUMMARY: &'static str = "protocolo v1: echo, system.info, disks.list, efi.entries, capabilities, daemon.info, boot.snapshot + (system) boot.set_next/clear_next/remove_entry/arm_firmware/reboot_to_firmware, system.reboot/poweroff";

/// The answer to a method the daemon does not know.
pub fn unknown_method(method: &str) -> (e: SysforgeError)
    ensures
        e.code@ == error_code(ErrorDomain::NotSupported, 1),
        e.message@ == "Método desconhecido: "@ + method@,
        e.technical@ == PROTOCOL_SUMMARY@,
{
    let mut msg = String::from_str("Método desconhecido: ");
    push_str(&mut msg, method);
    SysforgeError::new(ErrorDomain::NotSupported, 1, msg.as_str()).with_technical(PROTOCOL_SUMMARY)
}

/// The edition index parameter of the small-stick methods: 4 (Pro) when
/// absent, else the number cut to 32 bits as `as u32` does.
pub fn edition_param(v: Option<u64>) -> (r: u32)
    ensures
        r == (match v {
            Some(n) => n as u32,
            None => 4u32,
        }),
{
    match v {
        Some(n) => n as u32,
        None => 4,
    }
}

/// The first entry with that id.
pub open spec fn entry_with_id(entries: Seq<EntryV>, id: Seq<char>) -> Option<EntryV>
    decreases entries.len(),
{
    if entries.len() == 0 {
        None
    } else if entries[0].id == id {
        Some(entries[0])
    } else {
        entry_with_id(entries.drop_first(), id)
    }
}

/// The entry of the firmware state with that id.
pub fn entry_by_id(state: &EfiBootState, id: &str) -> (r: Option<EfiBootEntry>)
    ensures
        match entry_with_id(state@.entries, id@) {
            None => r is None,
            Some(e) => r matches Some(x) && x@ == e,
        },
{
    let ghost ev = state@.entries;
    let mut i: usize = 0;
    proof {
        assert(ev.skip(0) =~= ev);
    }
    while i < state.entries.len()
        invariant
            i <= state.entries.len(),
            ev == state@.entries,
            ev.len() == state.entries@.len(),
            entry_with_id(ev, id@) == entry_with_id(ev.skip(i as int), id@),
        decreases state.entries.len() - i,
    {
        proof {
            assert(ev.skip(i as int).drop_first() =~= ev.skip(i + 1));
            assert(ev.skip(i as int)[0] == state.entries@[i as int]@);
        }
        let e = &state.entries[i];
        if str_eq(e.id.as_str(), id) {
            return Some(e.clone_entry());
        }
        i += 1;
    }
    None
}

/// The entry a BootNext may point at: it must exist (`SF-BOOT-003`) and
/// be active (`SF-BOOT-004`). Checked before the firmware is touched.
pub fn set_next_target(state: &EfiBootState, entry_id: &str) -> (r: Result<EfiBootEntry, SysforgeError>)
    ensures
        match entry_with_id(state@.entries, entry_id@) {
            None => r matches Err(e) && e.code@ == error_code(ErrorDomain::Boot, 3)
                && e.message@ == "Entrada de boot "@ + entry_id@ + " não existe"@
                && e.recommendation@ == "Rode `sysforge boot` para ver os IDs válidos."@,
            Some(x) => if x.active {
                r matches Ok(y) && y@ == x
            } else {
                r matches Err(e) && e.code@ == error_code(ErrorDomain::Boot, 4)
                    && e.message@ == "Entrada "@ + entry_id@ + " ("@ + x.name + ") está INATIVA no firmware"@
                    && e.recommendation@ == "Ative a entrada primeiro ou escolha outra."@
            },
        },
{
    match entry_by_id(state, entry_id) {
        None => {
            let mut msg = String::from_str("Entrada de boot ");
            push_str(&mut msg, entry_id);
            push_str(&mut msg, " não existe");
            Err(SysforgeError::new(ErrorDomain::Boot, 3, msg.as_str())
                .with_recommendation("Rode `sysforge boot` para ver os IDs válidos."))
        },
        Some(e) => {
            if !e.active {
                let mut msg = String::from_str("Entrada ");
                push_str(&mut msg, entry_id);
                push_str(&mut msg, " (");
                push_str(&mut msg, e.name.as_str());
                push_str(&mut msg, ") está INATIVA no firmware");
                return Err(SysforgeError::new(ErrorDomain::Boot, 4, msg.as_str())
                    .with_recommendation("Ative a entrada primeiro ou escolha outra."));
            }
            Ok(e)
        },
    }
}

/// The entry `efibootmgr -B` may delete: it must exist (`SF-BOOT-003`) and
/// must not be one that the firmware generates itself (`SF-BOOT-005`).
pub fn remove_target(state: &EfiBootState, entry_id: &str) -> (r: Result<EfiBootEntry, SysforgeError>)
    ensures
        match entry_with_id(state@.entries, entry_id@) {
            None => r matches Err(e) && e.code@ == error_code(ErrorDomain::Boot, 3)
                && e.message@ == "Entrada de boot "@ + entry_id@ + " não existe"@,
            Some(x) => if firmware_internal(x) {
                r matches Err(e) && e.code@ == error_code(ErrorDomain::Boot, 5)
                    && e.message@ == "Entrada "@ + x.name + " é INTERNA do firmware — recusado"@
                    && e.recommendation@
                        == "Setup/Diagnostics/menus são gerados pelo próprio firmware; removê-las pode quebrar o boot."@
            } else {
                r matches Ok(y) && y@ == x
            },
        },
{
    match entry_by_id(state, entry_id) {
        None => {
            let mut msg = String::from_str("Entrada de boot ");
            push_str(&mut msg, entry_id);
            push_str(&mut msg, " não existe");
            Err(SysforgeError::new(ErrorDomain::Boot, 3, msg.as_str()))
        },
        Some(e) => {
            if e.is_firmware_internal() {
                let mut msg = String::from_str("Entrada ");
                push_str(&mut msg, e.name.as_str());
                push_str(&mut msg, " é INTERNA do firmware — recusado");
                return Err(SysforgeError::new(ErrorDomain::Boot, 5, msg.as_str()).with_recommendation(
                    "Setup/Diagnostics/menus são gerados pelo próprio firmware; removê-las pode quebrar o boot.",
                ));
            }
            Ok(e)
        },
    }
}

/// The user typed exactly `expected` (surrounding blanks ignored): the
/// consent asked before an irreversible step.
pub fn typed_confirmed(input: &str, expected: &str) -> (b: bool)
    ensures
        b == (crate::text::trim(input@) == expected@),
{
    let v = crate::text::chars_of(input);
    let t = crate::text::trim_string(v.as_slice());
    str_eq(t.as_str(), expected)
}

/// The arguments that arm BootNext on an entry.
pub open spec fn bootnext_args(entry_id: Seq<char>) -> Seq<Seq<char>> {
    seq!["--bootnext"@, entry_id]
}

/// Arming BootNext never writes the boot order: `efibootmgr` gets
/// `--bootnext` and the entry id, never `-o`/`--bootorder` (for an id that
/// is not itself an option; firmware ids are hexadecimal).
pub proof fn law_bootnext_leaves_boot_order(entry_id: Seq<char>)
    requires
        entry_id.len() == 0 || entry_id[0] != '-',
    ensures
        !bootnext_args(entry_id).contains("-o"@),
        !bootnext_args(entry_id).contains("--bootorder"@),
{
    reveal_strlit("-o");
    reveal_strlit("--bootorder");
    reveal_strlit("--bootnext");
    let a = bootnext_args(entry_id);
    assert(a.len() == 2 && a[0] == "--bootnext"@ && a[1] == entry_id);
    assert("--bootnext"@.len() == 10 && "-o"@.len() == 2 && "--bootorder"@.len() == 11);
    assert(a[0] != "-o"@ && a[0] != "--bootorder"@);
    assert("-o"@[0] == '-' && "--bootorder"@[0] == '-');
    assert(entry_id != "-o"@ && entry_id != "--bootorder"@);
    assert(!a.contains("-o"@));
    assert(!a.contains("--bootorder"@));
}

/// `efibootmgr --bootnext <id>`: one-shot, consumed by the firmware on the
/// next boot; BootOrder is never passed, so it stays intact.
pub fn bootnext_spec(entry_id: &str) -> (spec: CommandSpec)
    ensures
        spec.program@ == "efibootmgr"@,
        arg_views(spec.args@) == bootnext_args(entry_id@),
        spec.timeout_secs == 20,
{
    let spec = CommandSpec::new("efibootmgr").arg("--bootnext").arg(entry_id).timeout(20);
    assert(arg_views(spec.args@) =~= seq!["--bootnext"@, entry_id@]);
    spec
}

/// `efibootmgr --delete-bootnext`.
pub fn delete_bootnext_spec() -> (spec: CommandSpec)
    ensures
        spec.program@ == "efibootmgr"@,
        arg_views(spec.args@) == seq!["--delete-bootnext"@],
        spec.timeout_secs == 20,
{
    let spec = CommandSpec::new("efibootmgr").arg("--delete-bootnext").timeout(20);
    assert(arg_views(spec.args@) =~= seq!["--delete-bootnext"@]);
    spec
}

/// `efibootmgr -b <id> -B`: removal of one entry.
pub fn remove_entry_spec(entry_id: &str) -> (spec: CommandSpec)
    ensures
        spec.program@ == "efibootmgr"@,
        arg_views(spec.args@) == seq!["-b"@, entry_id@, "-B"@],
        spec.timeout_secs == 20,
{
    let spec = CommandSpec::new("efibootmgr").arg("-b").arg(entry_id).arg("-B").timeout(20);
    assert(arg_views(spec.args@) =~= seq!["-b"@, entry_id@, "-B"@]);
    spec
}

// ------------------------------------------------------------ boot requests

/// The kinds of step a request that changes the firmware's boot variables
/// takes.
#[derive(Debug, Clone, Copy, PartialEq, Eq, Structural)]
pub enum StepKind {
    CheckEntry,
    Snapshot,
    Write,
    ArmOsIndications,
}

/// One step of such a request, in the order the daemon carries them out.
#[derive(Debug)]
pub enum BootStep {
    /// Read the firmware state and check the target entry against it: it
    /// must exist, and be active when `must_be_active`.
    CheckEntry { must_be_active: bool },
    /// Capture a full snapshot of the UEFI state and save it; a failed save
    /// fails the request unless `save_optional`.
    Snapshot { save_optional: bool },
    /// Run a command that writes boot variables.
    Write(CommandSpec),
    /// Write the OsIndications request (the next boot opens the firmware
    /// setup).
    ArmOsIndications,
}

pub open spec fn step_kind(s: BootStep) -> StepKind {
    match s {
        BootStep::CheckEntry { .. } => StepKind::CheckEntry,
        BootStep::Snapshot { .. } => StepKind::Snapshot,
        BootStep::Write(_) => StepKind::Write,
        BootStep::ArmOsIndications => StepKind::ArmOsIndications,
    }
}

/// The steps of each boot request: checks first, then the snapshot, then
/// the write. Other routes change no boot variable here.
pub open spec fn boot_plan(r: Route) -> Seq<StepKind> {
    match r {
        Route::BootSetNext => seq![StepKind::CheckEntry, StepKind::Snapshot, StepKind::Write],
        Route::BootClearNext => seq![StepKind::Snapshot, StepKind::Write],
        Route::BootRemoveEntry => seq![StepKind::CheckEntry, StepKind::Snapshot, StepKind::Write],
        Route::BootArmFirmware => seq![StepKind::Snapshot, StepKind::ArmOsIndications],
        _ => seq![],
    }
}

pub open spec fn writes_boot(k: StepKind) -> bool {
    k == StepKind::Write || k == StepKind::ArmOsIndications
}

/// A full snapshot of the UEFI state is taken before any boot variable is
/// written, and the target entry is checked before anything is touched.
pub proof fn law_snapshot_before_boot_writes(r: Route)
    ensures
        forall|i: int|
            0 <= i < boot_plan(r).len() && writes_boot(#[trigger] boot_plan(r)[i]) ==> exists|j: int|
                0 <= j < i && boot_plan(r)[j] == StepKind::Snapshot,
        forall|i: int|
            0 <= i < boot_plan(r).len() && #[trigger] boot_plan(r)[i] == StepKind::CheckEntry ==> i == 0,
{
    let p = boot_plan(r);
    assert forall|i: int| 0 <= i < p.len() && writes_boot(#[trigger] p[i]) implies exists|j: int|
        0 <= j < i && p[j] == StepKind::Snapshot by {
        if p.len() == 3 {
            assert(p[1] == StepKind::Snapshot);
        } else {
            assert(p[0] == StepKind::Snapshot);
        }
    }
}

/// A request that writes boot variables is an effectful one: it demands
/// `confirm: true`.
pub proof fn law_boot_writes_need_confirmation(r: Route)
    ensures
        boot_plan(r).len() > 0 ==> effectful(r),
{
}

/// Every method with a real effect is privileged: on top of `confirm`, it
/// needs the daemon in system mode and the polkit verdict, and none of
/// them is a refused destructive method.
pub proof fn law_effects_are_privileged(m: Seq<char>)
    requires
        effectful(route_of(m)),
    ensures
        privileged_names().contains(m),
        !destructive_names().contains(m),
{
    let p = privileged_names();
    if m == METHOD_BOOT_SET_NEXT@ {
        assert(p[0] == m);
    } else if m == METHOD_BOOT_CLEAR_NEXT@ {
        assert(p[1] == m);
    } else if m == METHOD_BOOT_REMOVE_ENTRY@ {
        assert(p[2] == m);
    } else if m == METHOD_BOOT_REBOOT_TO_FIRMWARE@ {
        assert(p[3] == m);
    } else if m == METHOD_BOOT_ARM_FIRMWARE@ {
        assert(p[4] == m);
    } else if m == METHOD_SYSTEM_REBOOT@ {
        assert(p[5] == m);
    } else if m == METHOD_SYSTEM_POWEROFF@ {
        assert(p[6] == m);
    } else {
        assert(m == METHOD_DAEMON_SHUTDOWN@);
        assert(p[7] == m);
    }
    reveal_strlit("v1.disk.wipe");
    reveal_strlit("v1.disk.format");
    reveal_strlit("v1.deploy.start");
    reveal_strlit("v1.boot.set_next");
    reveal_strlit("v1.boot.clear_next");
    reveal_strlit("v1.boot.remove_entry");
    reveal_strlit("v1.boot.reboot_to_firmware");
    reveal_strlit("v1.boot.arm_firmware");
    reveal_strlit("v1.system.reboot");
    reveal_strlit("v1.system.poweroff");
    reveal_strlit("v1.daemon.shutdown");
    let d = destructive_names();
    assert(d[0].len() == 12 && d[1].len() == 14 && d[2].len() == 15);
    assert(m.len() != 12 && m.len() != 14 && m.len() != 15);
}

/// The steps of a boot request on `entry_id` (ignored where the request
/// names no entry), with the exact command each write runs.
pub fn boot_request_steps(r: Route, entry_id: &str) -> (steps: Vec<BootStep>)
    ensures
        steps@.map_values(|s: BootStep| step_kind(s)) == boot_plan(r),
        r == Route::BootSetNext ==> steps@[0] == (BootStep::CheckEntry { must_be_active: true })
            && steps@[1] == (BootStep::Snapshot { save_optional: false })
            && (steps@[2] matches BootStep::Write(c) && c.program@ == "efibootmgr"@ && arg_views(c.args@)
            == bootnext_args(entry_id@)),
        r == Route::BootClearNext ==> steps@[0] == (BootStep::Snapshot { save_optional: false })
            && (steps@[1] matches BootStep::Write(c) && c.program@ == "efibootmgr"@ && arg_views(c.args@)
            == seq!["--delete-bootnext"@]),
        r == Route::BootRemoveEntry ==> steps@[0] == (BootStep::CheckEntry { must_be_active: false })
            && steps@[1] == (BootStep::Snapshot { save_optional: false })
            && (steps@[2] matches BootStep::Write(c) && c.program@ == "efibootmgr"@ && arg_views(c.args@)
            == seq!["-b"@, entry_id@, "-B"@]),
        r == Route::BootArmFirmware ==> steps@[0] == (BootStep::Snapshot { save_optional: true }),
{
    let mut steps: Vec<BootStep> = Vec::new();
    match r {
        Route::BootSetNext => {
            steps.push(BootStep::CheckEntry { must_be_active: true });
            steps.push(BootStep::Snapshot { save_optional: false });
            steps.push(BootStep::Write(bootnext_spec(entry_id)));
        },
        Route::BootClearNext => {
            steps.push(BootStep::Snapshot { save_optional: false });
            steps.push(BootStep::Write(delete_bootnext_spec()));
        },
        Route::BootRemoveEntry => {
            steps.push(BootStep::CheckEntry { must_be_active: false });
            steps.push(BootStep::Snapshot { save_optional: false });
            steps.push(BootStep::Write(remove_entry_spec(entry_id)));
        },
        Route::BootArmFirmware => {
            steps.push(BootStep::Snapshot { save_optional: true });
            steps.push(BootStep::ArmOsIndications);
        },
        _ => {},
    }
    assert(steps@.map_values(|s: BootStep| step_kind(s)) =~= boot_plan(r));
    steps
}

// ------------------------------------------------------------ daemon arguments

/// What the daemon's command line asks for.
#[derive(Debug, Clone)]
pub enum DaemonArgs {
    /// Serve in this mode, on this socket (the mode's default when `None`).
    Run { mode: DaemonMode, socket: Option<String> },
    Version,
    Help,
    /// `--socket` without a path.
    MissingSocketPath,
    /// An option the daemon does not know.
    UnknownOption(String),
}

/// Abstract outcome of the argument parse.
pub enum ArgsV {
    Run(DaemonMode, Option<Seq<char>>),
    Version,
    Help,
    MissingSocketPath,
    UnknownOption(Seq<char>),
}

/// Parse of the arguments from position `i` on, with the mode and socket
/// chosen so far. Later `--dev` / `--system` / `--socket` override earlier
/// ones; `--version`, `--help` / `-h` and errors stop at once.
pub open spec fn parse_from(args: Seq<Seq<char>>, i: int, mode: DaemonMode, socket: Option<Seq<char>>) -> ArgsV
    decreases args.len() - i,
{
    if i >= args.len() || i < 0 {
        ArgsV::Run(mode, socket)
    } else {
        let a = args[i];
        if a == "--dev"@ {
            parse_from(args, i + 1, DaemonMode::Dev, socket)
        } else if a == "--system"@ {
            parse_from(args, i + 1, DaemonMode::System, socket)
        } else if a == "--socket"@ {
            if i + 1 < args.len() {
                parse_from(args, i + 2, mode, Some(args[i + 1]))
            } else {
                ArgsV::MissingSocketPath
            }
        } else if a == "--version"@ {
            ArgsV::Version
        } else if a == "--help"@ || a == "-h"@ {
            ArgsV::Help
        } else {
            ArgsV::UnknownOption(a)
        }
    }
}

pub open spec fn args_view(a: DaemonArgs) -> ArgsV {
    match a {
        DaemonArgs::Run { mode, socket } => ArgsV::Run(mode, match socket { Some(s) => Some(s@), None => None }),
        DaemonArgs::Version => ArgsV::Version,
        DaemonArgs::Help => ArgsV::Help,
        DaemonArgs::MissingSocketPath => ArgsV::MissingSocketPath,
        DaemonArgs::UnknownOption(o) => ArgsV::UnknownOption(o@),
    }
}

/// Parses the daemon's arguments (without the program name); the mode is
/// dev unless asked otherwise.
pub fn parse_daemon_args(args: &Vec<String>) -> (r: DaemonArgs)
    ensures
        args_view(r) == parse_from(args@.map_values(|s: String| s@), 0, DaemonMode::Dev, None),
{
    let ghost av = args@.map_values(|s: String| s@);
    let mut mode = DaemonMode::Dev;
    let mut socket: Option<String> = None;
    let mut i: usize = 0;
    while i < args.len()
        invariant
            i <= args.len(),
            av == args@.map_values(|s: String| s@),
            parse_from(av, 0, DaemonMode::Dev, None) == parse_from(av, i as int, mode, match socket {
                Some(s) => Some(s@),
                None => None,
            }),
        decreases args.len() - i,
    {
        let a = args[i].as_str();
        proof {
            assert(av[i as int] == a@);
        }
        if str_eq(a, "--dev") {
            mode = DaemonMode::Dev;
            i += 1;
        } else if str_eq(a, "--system") {
            mode = DaemonMode::System;
            i += 1;
        } else if str_eq(a, "--socket") {
            if i + 1 < args.len() {
                proof {
                    assert(av[i + 1] == args@[i + 1]@);
                }
                socket = Some(clone_string(&args[i + 1]));
                i += 2;
            } else {
                return DaemonArgs::MissingSocketPath;
            }
        } else if str_eq(a, "--version") {
            return DaemonArgs::Version;
        } else if str_eq(a, "--help") || str_eq(a, "-h") {
            return DaemonArgs::Help;
        } else {
            return DaemonArgs::UnknownOption(String::from_str(a));
        }
    }
    DaemonArgs::Run { mode, socket }
}

} // verus!
