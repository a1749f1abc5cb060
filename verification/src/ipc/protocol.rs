//! IPC protocol of the `sysforge-osd` daemon: NDJSON (one JSON message per
//! line) over a Unix socket.
//!
//! Security rules: the daemon always knows the caller's uid from
//! SO_PEERCRED; dev mode serves the same uid read-only and refuses anything
//! destructive; system mode authorizes each privileged method through
//! polkit; errors always carry an `SF-XXX-NNN` code.

use vstd::prelude::*;

use crate::error::SysforgeError;
use crate::text::str_eq;

verus! {

pub const PROTOCOL_VERSION: u32 = 1;

// ---- v1 methods (read-only) ----
pub const METHOD_ECHO: &'static str = "v1.echo";
pub const METHOD_SYSTEM_INFO: &'static str = "v1.system.info";
pub const METHOD_DISKS_LIST: &'static str = "v1.disks.list";
pub const METHOD_EFI_ENTRIES: &'static str = "v1.efi.entries";
pub const METHOD_CAPABILITIES: &'static str = "v1.capabilities";
pub const METHOD_DAEMON_INFO: &'static str = "v1.daemon.info";

// ---- privileged methods (daemon in system mode + polkit) ----
/// BootNext one-shot (never touches BootOrder). Params: {entry_id, confirm:true}
pub const METHOD_BOOT_SET_NEXT: &'static str = "v1.boot.set_next";
/// Clears an armed BootNext. Params: {confirm:true}
pub const METHOD_BOOT_CLEAR_NEXT: &'static str = "v1.boot.clear_next";
/// Removes a boot entry (disk/file entries only, with snapshot).
pub const METHOD_BOOT_REMOVE_ENTRY: &'static str = "v1.boot.remove_entry";
/// Snapshot of the UEFI state (read-only, works in dev).
pub const METHOD_BOOT_SNAPSHOT: &'static str = "v1.boot.snapshot";
/// Reboots straight into the firmware setup screen. Params: {confirm:true}
pub const METHOD_BOOT_REBOOT_TO_FIRMWARE: &'static str = "v1.boot.reboot_to_firmware";
/// Only arms OsIndications (next boot goes to the firmware setup).
pub const METHOD_BOOT_ARM_FIRMWARE: &'static str = "v1.boot.arm_firmware";
/// Immediate reboot. Params: {confirm:true}
pub const METHOD_SYSTEM_REBOOT: &'static str = "v1.system.reboot";
/// Immediate power off. Params: {confirm:true}
pub const METHOD_SYSTEM_POWEROFF: &'static str = "v1.system.poweroff";
/// Clean daemon shutdown (to swap the binary without sudo/reboot).
pub const METHOD_DAEMON_SHUTDOWN: &'static str = "v1.daemon.shutdown";

/// Methods that require the daemon in SYSTEM mode plus polkit
/// authorization. Refused in dev mode (fail-closed).
pub const PRIVILEGED_METHODS: [&'static str; 8] = [
    "v1.boot.set_next",
    "v1.boot.clear_next",
    "v1.boot.remove_entry",
    "v1.boot.reboot_to_firmware",
    "v1.boot.arm_firmware",
    "v1.system.reboot",
    "v1.system.poweroff",
    "v1.daemon.shutdown",
];

/// Future destructive methods (wipe/format/deploy) — refused in EVERY mode
/// until the phase that implements them with the full guard.
pub const DESTRUCTIVE_REGISTRY: [&'static str; 3] = ["v1.disk.wipe", "v1.disk.format", "v1.deploy.start"];

/// Socket of the daemon in system mode (systemd socket activation).
pub const DEFAULT_SYSTEM_SOCKET: &'static str = "/run/sysforge-osd.sock";

/// The privileged method names.
pub open spec fn privileged_names() -> Seq<Seq<char>> {
    seq![
        "v1.boot.set_next"@,
        "v1.boot.clear_next"@,
        "v1.boot.remove_entry"@,
        "v1.boot.reboot_to_firmware"@,
        "v1.boot.arm_firmware"@,
        "v1.system.reboot"@,
        "v1.system.poweroff"@,
        "v1.daemon.shutdown"@,
    ]
}

/// The destructive method names.
pub open spec fn destructive_names() -> Seq<Seq<char>> {
    seq!["v1.disk.wipe"@, "v1.disk.format"@, "v1.deploy.start"@]
}

/// Is the method privileged?
pub fn is_privileged(method: &str) -> (b: bool)
    ensures
        b == privileged_names().contains(method@),
{
    let names = PRIVILEGED_METHODS;
    let mut i: usize = 0;
    while i < 8
        invariant
            i <= 8,
            names@.map_values(|n: &str| n@) == privileged_names(),
            forall|k: int| 0 <= k < i ==> privileged_names()[k] != method@,
        decreases 8 - i,
    {
        if str_eq(names[i], method) {
            assert(privileged_names()[i as int] == method@);
            return true;
        }
        i += 1;
    }
    false
}

/// Is the method registered as destructive?
pub fn is_destructive(method: &str) -> (b: bool)
    ensures
        b == destructive_names().contains(method@),
{
    let names = DESTRUCTIVE_REGISTRY;
    let mut i: usize = 0;
    while i < 3
        invariant
            i <= 3,
            names@.map_values(|n: &str| n@) == destructive_names(),
            forall|k: int| 0 <= k < i ==> destructive_names()[k] != method@,
        decreases 3 - i,
    {
        if str_eq(names[i], method) {
            assert(destructive_names()[i as int] == method@);
            return true;
        }
        i += 1;
    }
    false
}

/// An error as it travels on the wire.
#[derive(Debug, Clone, PartialEq, Eq)]
pub struct WireError {
    pub code: String,
    pub message: String,
    pub technical: String,
    pub recommendation: String,
}

impl From<SysforgeError> for WireError {
    fn from(e: SysforgeError) -> (w: Self) {
        WireError {
            code: e.code,
            message: e.message,
            technical: e.technical,
            recommendation: e.recommendation,
        }
    }
}

impl vstd::std_specs::convert::FromSpecImpl<SysforgeError> for WireError {
    open spec fn obeys_from_spec() -> bool {
        true
    }

    open spec fn from_spec(e: SysforgeError) -> Self {
        WireError {
            code: e.code,
            message: e.message,
            technical: e.technical,
            recommendation: e.recommendation,
        }
    }
}

impl From<WireError> for SysforgeError {
    fn from(e: WireError) -> (s: Self) {
        SysforgeError {
            code: e.code,
            message: e.message,
            technical: e.technical,
            recommendation: e.recommendation,
        }
    }
}

impl vstd::std_specs::convert::FromSpecImpl<WireError> for SysforgeError {
    open spec fn obeys_from_spec() -> bool {
        true
    }

    open spec fn from_spec(e: WireError) -> Self {
        SysforgeError {
            code: e.code,
            message: e.message,
            technical: e.technical,
            recommendation: e.recommendation,
        }
    }
}

/// An error carried to the wire and back is the same error.
pub proof fn law_wire_error_round_trip(e: SysforgeError)
    ensures
        <SysforgeError as vstd::std_specs::convert::FromSpec<WireError>>::from_spec(
            <WireError as vstd::std_specs::convert::FromSpec<SysforgeError>>::from_spec(e),
        ) == e,
{
}

} // verus!
