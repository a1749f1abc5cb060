//! Snapshot of the UEFI state: the complete picture BEFORE any mutation.
//! Platform rule: no boot write happens without a prior snapshot.

use vstd::prelude::*;

use crate::boot::efi::{parsed_efi, read_efi_state, EfiBootState};
use crate::error::{error_code, ErrorDomain, SysforgeError};
use crate::executor::{arg_views, join_path, path_join, CommandSpec, ExecResult};
use crate::state::now_rfc3339;
use crate::text::{clone_string, push_str};

verus! {

#[derive(Debug, Clone)]
pub struct BootSnapshot {
    /// RFC 3339 time of the capture.
    pub captured_at: String,
    /// The parsed state (order, entries).
    pub state: EfiBootState,
    /// Raw `efibootmgr -v` output, for audit and manual rollback.
    pub raw_verbose: String,
}

/// `efibootmgr -v`.
pub fn verbose_spec() -> (spec: CommandSpec)
    ensures
        spec.program@ == "efibootmgr"@,
        arg_views(spec.args@) == seq!["-v"@],
        spec.timeout_secs == 15,
{
    let spec = CommandSpec::new("efibootmgr").arg("-v").timeout(15);
    assert(arg_views(spec.args@) =~= seq!["-v"@]);
    spec
}

impl BootSnapshot {
    /// Captures the current state (read-only): `state_run` is the
    /// `efibootmgr` run read by [`read_efi_state`], `verbose` the
    /// [`verbose_spec`] run (or what kept it from running). The capture
    /// time is the clock's; a clock that cannot date it is `SF-IO-014`.
    pub fn capture(state_run: &ExecResult, verbose: Result<ExecResult, SysforgeError>) -> (r: Result<Self, SysforgeError>)
        ensures
            state_run.exit_code != Some(0i32) ==> (r matches Err(e) && e.code@ == error_code(ErrorDomain::Boot, 1)),
            state_run.exit_code == Some(0i32) ==> match verbose {
                Err(e) => r == Err::<BootSnapshot, SysforgeError>(e),
                Ok(v) => match r {
                    Ok(s) => s.state@ == parsed_efi(state_run.stdout@) && s.raw_verbose@ == v.stdout@,
                    Err(e) => e.code@ == error_code(ErrorDomain::Io, 14),
                },
            },
    {
        let state = match read_efi_state(state_run) {
            Ok(s) => s,
            Err(e) => {
                return Err(e);
            },
        };
        let raw = match verbose {
            Ok(v) => v,
            Err(e) => {
                return Err(e);
            },
        };
        match now_rfc3339() {
            Some(now) => Ok(BootSnapshot { captured_at: now, state, raw_verbose: clone_string(&raw.stdout) }),
            None => Err(crate::state::clock_unusable()),
        }
    }
}

/// Where snapshots are kept: `/var/lib` for root (system mode), the
/// user's data directory otherwise (`SF-IO-002` without `$HOME`).
pub fn snapshots_dir(uid: u32, home: Option<String>) -> (r: Result<String, SysforgeError>)
    ensures
        uid == 0 ==> (r matches Ok(d) && d@ == "/var/lib/yua-os-manager/snapshots"@),
        uid != 0 ==> match home {
            Some(h) => r matches Ok(d) && d@ == path_join(h@, ".local/share/yua-os-manager/snapshots"@),
            None => r matches Err(e) && e.code@ == error_code(ErrorDomain::Io, 2) && e.message@ == "HOME não definido"@,
        },
{
    if uid == 0 {
        return Ok(String::from_str("/var/lib/yua-os-manager/snapshots"));
    }
    match home {
        Some(h) => Ok(join_path(h.as_str(), ".local/share/yua-os-manager/snapshots")),
        None => Err(SysforgeError::new(ErrorDomain::Io, 2, "HOME não definido")),
    }
}

/// The file of a snapshot taken at `ts` (`%Y%m%d-%H%M%S`) and the
/// temporary name it is first written under (then renamed: atomic).
pub fn snapshot_names(ts: &str) -> (r: (String, String))
    ensures
        r.0@ == "boot-snapshot-"@ + ts@ + ".json"@,
        r.1@ == "."@ + r.0@ + ".tmp"@,
{
    let mut name = String::from_str("boot-snapshot-");
    push_str(&mut name, ts);
    push_str(&mut name, ".json");
    let mut tmp = String::from_str(".");
    push_str(&mut tmp, name.as_str());
    push_str(&mut tmp, ".tmp");
    (name, tmp)
}

} // verus!
