//! Block inventory from `lsblk --json -b` (util-linux 2.39+).
//!
//! One pass returns the whole tree (disk → partitions) with model, serial,
//! filesystem and mounts. The JSON itself is decoded at the edge; this
//! module holds the device model and the decisions around the command.

use vstd::prelude::*;

use crate::error::{error_code, ErrorDomain, SysforgeError};
use crate::executor::{CommandSpec, ExecResult};
use crate::text::{chars_of, clone_opt, clone_string, opt_view, push_str, str_eq, trim, trim_string};

verus! {

/// Fixed columns — names stable across supported versions.
pub const LSBLK_FIELDS: &'static str =
    "NAME,PATH,MAJ:MIN,TYPE,FSTYPE,MOUNTPOINTS,SIZE,MODEL,SERIAL,UUID,PARTLABEL,PARTUUID,TRAN,RO,RM";

/// Block device (disk or partition), mirroring the lsblk JSON.
#[derive(Debug, Default)]
pub struct LsblkDevice {
    pub name: String,
    pub path: Option<String>,
    pub majmin: Option<String>,
    pub kind: Option<String>,
    pub fstype: Option<String>,
    /// util-linux >= 2.39: array (`None` entries when not mounted).
    pub mountpoints: Option<Vec<Option<String>>>,
    /// Fallback for older util-linux.
    pub mountpoint: Option<String>,
    pub size: u64,
    pub model: Option<String>,
    pub serial: Option<String>,
    pub uuid: Option<String>,
    pub partlabel: Option<String>,
    pub partuuid: Option<String>,
    pub tran: Option<String>,
    pub ro: Option<bool>,
    pub rm: Option<bool>,
    pub children: Vec<LsblkDevice>,
}

/// The mounted paths among optional entries, in order.
pub open spec fn present(s: Seq<Option<String>>) -> Seq<Seq<char>>
    decreases s.len(),
{
    if s.len() == 0 {
        seq![]
    } else {
        let rest = present(s.drop_last());
        match s.last() {
            Some(m) => rest.push(m@),
            None => rest,
        }
    }
}

/// Mount points of a device: the array when present, else the single field.
pub open spec fn mounts_of(d: LsblkDevice) -> Seq<Seq<char>> {
    match d.mountpoints {
        Some(arr) => present(arr@),
        None => match d.mountpoint {
            Some(m) => seq![m@],
            None => seq![],
        },
    }
}

/// Trimmed text, absent when empty.
pub open spec fn trimmed_nonempty(o: Option<String>) -> Option<Seq<char>> {
    match o {
        Some(s) => if trim(s@).len() > 0 {
            Some(trim(s@))
        } else {
            None
        },
        None => None,
    }
}

fn trimmed_opt(o: &Option<String>) -> (r: Option<String>)
    ensures
        opt_view(r) == trimmed_nonempty(*o),
{
    match o {
        Some(s) => {
            let v = chars_of(s.as_str());
            let t = trim_string(v.as_slice());
            if t.as_str().unicode_len() > 0 {
                Some(t)
            } else {
                None
            }
        },
        None => None,
    }
}

impl LsblkDevice {
    pub fn is_disk(&self) -> (b: bool)
        ensures
            b == (opt_view(self.kind) == Some("disk"@)),
    {
        match &self.kind {
            Some(k) => str_eq(k.as_str(), "disk"),
            None => false,
        }
    }

    pub fn mounts(&self) -> (r: Vec<String>)
        ensures
            r@.map_values(|m: String| m@) == mounts_of(*self),
    {
        let mut out: Vec<String> = Vec::new();
        match &self.mountpoints {
            Some(arr) => {
                let mut i: usize = 0;
                while i < arr.len()
                    invariant
                        i <= arr.len(),
                        self.mountpoints == Some(*arr),
                        out@.map_values(|m: String| m@) == present(arr@.take(i as int)),
                    decreases arr.len() - i,
                {
                    let ghost before = out@;
                    match &arr[i] {
                        Some(m) => {
                            out.push(clone_string(m));
                        },
                        None => {},
                    }
                    proof {
                        assert(arr@.take(i + 1).drop_last() =~= arr@.take(i as int));
                        assert(out@.map_values(|m: String| m@) =~= present(arr@.take(i + 1)));
                    }
                    i += 1;
                }
                proof {
                    assert(arr@.take(arr.len() as int) =~= arr@);
                }
            },
            None => {
                match &self.mountpoint {
                    Some(m) => {
                        out.push(clone_string(m));
                    },
                    None => {},
                }
                proof {
                    assert(out@.map_values(|m: String| m@) =~= mounts_of(*self));
                }
            },
        }
        out
    }

    pub fn model_trimmed(&self) -> (r: Option<String>)
        ensures
            opt_view(r) == trimmed_nonempty(self.model),
    {
        trimmed_opt(&self.model)
    }

    pub fn serial_trimmed(&self) -> (r: Option<String>)
        ensures
            opt_view(r) == trimmed_nonempty(self.serial),
    {
        trimmed_opt(&self.serial)
    }
}

/// The arguments of an `lsblk` invocation.
pub open spec fn lsblk_args(device: Option<Seq<char>>) -> Seq<Seq<char>> {
    let base = seq!["--json"@, "-b"@, "-o"@, LSBLK_FIELDS@];
    match device {
        Some(d) => base.push(d),
        None => base,
    }
}

/// The `lsblk` command: whole tree, or one device.
pub fn lsblk_spec(device: Option<String>) -> (spec: CommandSpec)
    ensures
        spec.program@ == "lsblk"@,
        spec.args@.map_values(|a: String| a@) == lsblk_args(opt_view(device)),
        spec.env@.len() == 0,
        spec.timeout_secs == 20,
{
    let mut spec = CommandSpec::new("lsblk").arg("--json").arg("-b").arg("-o").arg(
        LSBLK_FIELDS,
    ).timeout(20);
    match device {
        Some(dev) => {
            spec = spec.arg(dev.as_str());
        },
        None => {},
    }
    assert(spec.args@.map_values(|a: String| a@) =~= lsblk_args(opt_view(device)));
    spec
}

/// Whole block tree: a failed `lsblk` becomes the command error; otherwise
/// the decoded JSON of its output (`decoded`) is the answer.
pub fn list_blockdevices(r: &ExecResult, decoded: Result<Vec<LsblkDevice>, SysforgeError>) -> (out:
    Result<Vec<LsblkDevice>, SysforgeError>)
    ensures
        r.exit_code != Some(0i32) ==> (out matches Err(e) && e.code@ == error_code(ErrorDomain::Io, 1)
            && e.message@ == "O comando `"@ + "lsblk"@ + "` falhou"@),
        r.exit_code == Some(0i32) ==> out == decoded,
{
    if !r.success() {
        let no_args: Vec<String> = Vec::new();
        return Err(SysforgeError::command_failed("lsblk", no_args.as_slice(), r.exit_code, r.stderr.as_str()));
    }
    decoded
}

/// One device by path: a failed `lsblk` means the device is absent
/// (`SF-DISK-001`); otherwise the first decoded device, if any.
pub fn probe_device(path: &str, r: &ExecResult, decoded: Result<Vec<LsblkDevice>, SysforgeError>) -> (out:
    Result<LsblkDevice, SysforgeError>)
    ensures
        r.exit_code != Some(0i32) ==> (out matches Err(e) && e.code@ == error_code(ErrorDomain::Disk, 1)
            && e.message@ == "Dispositivo "@ + path@ + " não encontrado"@),
        r.exit_code == Some(0i32) ==> match decoded {
            Err(e) => out == Err::<LsblkDevice, SysforgeError>(e),
            Ok(v) => if v.len() > 0 {
                out == Ok::<LsblkDevice, SysforgeError>(v[0])
            } else {
                out matches Err(e) && e.code@ == error_code(ErrorDomain::Disk, 1) && e.message@
                    == "lsblk não retornou dados para "@ + path@
            },
        },
{
    if !r.success() {
        let mut msg = String::from_str("Dispositivo ");
        push_str(&mut msg, path);
        push_str(&mut msg, " não encontrado");
        let mut tech = String::from_str("lsblk saiu com ");
        crate::error::push_exit_debug(&mut tech, r.exit_code);
        push_str(&mut tech, ": ");
        let v = chars_of(r.stderr.as_str());
        let t = trim_string(v.as_slice());
        push_str(&mut tech, t.as_str());
        return Err(SysforgeError::new(ErrorDomain::Disk, 1, msg.as_str()).with_technical(
            tech.as_str(),
        ).with_recommendation(
            "Verifique se o dispositivo está conectado e o caminho está correto (ex.: /dev/sdb).",
        ));
    }
    match decoded {
        Err(e) => Err(e),
        Ok(mut v) => {
            if v.len() > 0 {
                let first = v.swap_remove(0);
                Ok(first)
            } else {
                let mut msg = String::from_str("lsblk não retornou dados para ");
                push_str(&mut msg, path);
                Err(SysforgeError::new(ErrorDomain::Disk, 1, msg.as_str()))
            }
        },
    }
}

} // verus!
