//! Backup of the user's files BEFORE switching systems: the user's own
//! folders copied to an external target (a mounted USB disk or data
//! partition). rsync runs AS THE USER, never with `--delete`: a backup
//! only adds, it never erases anything at the destination.

use vstd::prelude::*;

use crate::error::{error_code, joined_args, exit_debug, ErrorDomain, SysforgeError};
use crate::executor::{arg_views, join_path, path_join, CommandSpec, ExecResult, Executor, RunPlan};
use crate::text::{chars_of, clone_string, push_str, str_eq, string_range, trim, words, words_of, string_from};

verus! {

/// The user's classic folders of value (offered as the default).
pub const DEFAULT_DIRS: [&'static str; 11] = [
    "Documentos",
    "Documents",
    "Downloads",
    "Imagens",
    "Pictures",
    "Vídeos",
    "Videos",
    "Músicas",
    "Music",
    "Área de Trabalho",
    "Desktop",
];

/// Subdirectory of the target that receives every copy: nothing outside
/// it is ever written.
pub const BACKUP_SUBDIR: &'static str = "sysforge-backup";

#[derive(Debug, Clone)]
pub struct BackupTarget {
    pub mount: String,
    pub device: String,
    pub fs: String,
    pub free_bytes: u64,
}

#[derive(Debug, Clone)]
pub struct BackupDir {
    pub name: String,
    pub path: String,
    pub size_bytes: u64,
    pub exists: bool,
}

#[derive(Debug, Clone)]
pub struct BackupEstimate {
    pub total_bytes: u64,
    pub free_bytes: u64,
    pub fits: bool,
}

/// Is `d` one of the default folders?
pub open spec fn allowed_dir(d: Seq<char>) -> bool {
    exists|k: int| 0 <= k < 11 && DEFAULT_DIRS[k]@ == d
}

/// Exec form of [`allowed_dir`].
pub fn is_allowed_dir(d: &str) -> (b: bool)
    ensures
        b == allowed_dir(d@),
{
    let mut k: usize = 0;
    while k < 11
        invariant
            k <= 11,
            forall|j: int| 0 <= j < k ==> DEFAULT_DIRS[j]@ != d@,
        decreases 11 - k,
    {
        if str_eq(DEFAULT_DIRS[k], d) {
            return true;
        }
        k += 1;
    }
    false
}

/// `findmnt -n -o SOURCE,FSTYPE --target <mount>`: which device a mount
/// comes from.
pub fn findmnt_spec(mount: &str) -> (spec: CommandSpec)
    ensures
        spec.program@ == "findmnt"@,
        arg_views(spec.args@) == seq!["-n"@, "-o"@, "SOURCE,FSTYPE"@, "--target"@, mount@],
        spec.timeout_secs == 10,
{
    let spec = CommandSpec::new("findmnt").arg("-n").arg("-o").arg("SOURCE,FSTYPE").arg("--target").arg(mount).timeout(
        10,
    );
    assert(arg_views(spec.args@) =~= seq!["-n"@, "-o"@, "SOURCE,FSTYPE"@, "--target"@, mount@]);
    spec
}

/// The target a mount offers: a directory with free space whose source
/// is a device path (`/...`). `free` is its free space (`None` when
/// unreadable); `findmnt` the output of [`findmnt_spec`] (`None` when it
/// could not run). A missing word reads "?".
pub open spec fn target_of(mount: Seq<char>, is_dir: bool, free: Option<u64>, findmnt: Option<Seq<char>>) -> Option<(Seq<char>, Seq<char>, Seq<char>, u64)> {
    match (is_dir, free, findmnt) {
        (true, Some(f), Some(out)) => {
            let w = words(out);
            let device = if w.len() > 0 { w[0] } else { "?"@ };
            let fs = if w.len() > 1 { w[1] } else { "?"@ };
            if f > 0 && device.len() > 0 && device[0] == '/' {
                Some((mount, device, fs, f))
            } else {
                None
            }
        },
        _ => None,
    }
}

pub fn probe_target(mount: &str, is_dir: bool, free: Option<u64>, findmnt: &Option<String>) -> (r: Option<BackupTarget>)
    ensures
        match target_of(mount@, is_dir, free, match findmnt { Some(s) => Some(s@), None => None }) {
            None => r is None,
            Some((m, d, fs, f)) => r matches Some(t) && t.mount@ == m && t.device@ == d && t.fs@ == fs && t.free_bytes == f,
        },
{
    if !is_dir {
        return None;
    }
    let f = match free {
        Some(f) => f,
        None => {
            return None;
        },
    };
    let out = match findmnt {
        Some(o) => o,
        None => {
            return None;
        },
    };
    if f == 0 {
        return None;
    }
    let ws = words_of(chars_of(out.as_str()).as_slice());
    let device = if ws.len() > 0 { string_from(ws[0].as_slice()) } else { String::from_str("?") };
    let fs = if ws.len() > 1 { string_from(ws[1].as_slice()) } else { String::from_str("?") };
    proof {
        reveal_strlit("?");
    }
    let dv = chars_of(device.as_str());
    if dv.len() > 0 && dv[0] == '/' {
        Some(BackupTarget { mount: String::from_str(mount), device, fs, free_bytes: f })
    } else {
        None
    }
}

/// Sum of the sizes.
pub open spec fn total_of(sizes: Seq<u64>) -> nat
    decreases sizes.len(),
{
    if sizes.len() == 0 {
        0
    } else {
        total_of(sizes.drop_last()) + sizes.last() as nat
    }
}

/// Honest estimate, before a single byte is copied: it fits when there is
/// something to copy and strictly more free space than that. `home_set`:
/// `$HOME` is defined; `sizes`: the size of each chosen folder; `free`:
/// the free space of the target (`None` when unreadable, counted as 0).
pub fn estimate(home_set: bool, sizes: &Vec<u64>, free: Option<u64>) -> (r: Result<BackupEstimate, SysforgeError>)
    requires
        total_of(sizes@) <= u64::MAX,
    ensures
        !home_set ==> (r matches Err(e) && e.code@ == error_code(ErrorDomain::Io, 30) && e.message@ == "HOME não definido"@),
        home_set ==> (r matches Ok(x) && x.total_bytes == total_of(sizes@) && x.free_bytes == (match free {
            Some(f) => f,
            None => 0,
        }) && x.fits == (x.total_bytes > 0 && x.free_bytes > x.total_bytes)),
{
    if !home_set {
        return Err(SysforgeError::new(ErrorDomain::Io, 30, "HOME não definido"));
    }
    let mut total: u64 = 0;
    let mut i: usize = 0;
    while i < sizes.len()
        invariant
            i <= sizes.len(),
            total_of(sizes@) <= u64::MAX,
            total == total_of(sizes@.take(i as int)),
        decreases sizes.len() - i,
    {
        proof {
            assert(sizes@.take(i + 1).drop_last() =~= sizes@.take(i as int));
            lemma_total_prefix(sizes@, i + 1);
        }
        total = total + sizes[i];
        i += 1;
    }
    proof {
        assert(sizes@.take(sizes.len() as int) =~= sizes@);
    }
    let free_bytes = match free {
        Some(f) => f,
        None => 0,
    };
    Ok(BackupEstimate { total_bytes: total, free_bytes, fits: total > 0 && free_bytes > total })
}

/// A prefix sums to no more than the whole.
proof fn lemma_total_prefix(s: Seq<u64>, n: int)
    requires
        0 <= n <= s.len(),
    ensures
        total_of(s.take(n)) <= total_of(s),
    decreases s.len(),
{
    if n < s.len() {
        assert(s.drop_last().take(n) =~= s.take(n));
        lemma_total_prefix(s.drop_last(), n);
    } else {
        assert(s.take(n) =~= s);
    }
}

/// Where the copies go: `<target>/sysforge-backup`, or `SF-STATE-010`
/// when no folder was chosen.
pub fn backup_start(dirs: &Vec<String>, target: &str) -> (r: Result<String, SysforgeError>)
    ensures
        dirs@.len() == 0 <==> r is Err,
        r matches Err(e) ==> e.code@ == error_code(ErrorDomain::State, 10)
            && e.message@ == "Nenhuma pasta selecionada para backup"@,
        r matches Ok(d) ==> d@ == path_join(target@, BACKUP_SUBDIR@),
{
    if dirs.len() == 0 {
        return Err(SysforgeError::new(ErrorDomain::State, 10, "Nenhuma pasta selecionada para backup"));
    }
    Ok(join_path(target, BACKUP_SUBDIR))
}

/// The arguments of the rsync of folder `d` into `dest_root`.
pub open spec fn rsync_args(d: Seq<char>, dest_root: Seq<char>) -> Seq<Seq<char>> {
    seq![
        "-a"@,
        "--info=progress2"@,
        "--exclude=.cache"@,
        "--exclude=.thumbnails"@,
        d + "/"@,
        path_join(dest_root, d) + "/"@,
    ]
}

/// A backup only adds: its rsync never carries `--delete` or another
/// option that removes files at the destination (each option it passes
/// is one of the four fixed ones; the last two arguments are the paths).
pub proof fn law_backup_never_deletes(d: Seq<char>, dest_root: Seq<char>)
    ensures
        !rsync_args(d, dest_root).take(4).contains("--delete"@),
        rsync_args(d, dest_root).len() == 6,
{
    reveal_strlit("-a");
    reveal_strlit("--info=progress2");
    reveal_strlit("--exclude=.cache");
    reveal_strlit("--exclude=.thumbnails");
    reveal_strlit("--delete");
    let a = rsync_args(d, dest_root).take(4);
    assert forall|k: int| 0 <= k < 4 implies a[k] != "--delete"@ by {
        if k == 0 {
            assert(a[0].len() != "--delete"@.len());
        } else if k == 1 {
            assert(a[1][2] != "--delete"@[2]);
        } else if k == 2 {
            assert(a[2][2] != "--delete"@[2]);
        } else {
            assert(a[3][2] != "--delete"@[2]);
        }
    }
}

/// The rsync of one folder of `$HOME` (the working directory) into
/// `<dest_root>/<d>/`: archive mode, aggregated progress, caches excluded,
/// never `--delete`.
pub fn rsync_spec(d: &str, dest_root: &str) -> (spec: CommandSpec)
    ensures
        spec.program@ == "rsync"@,
        arg_views(spec.args@) == rsync_args(d@, dest_root@),
        spec.timeout_secs == 43200,
{
    let mut src = String::from_str(d);
    push_str(&mut src, "/");
    let mut dst = join_path(dest_root, d);
    push_str(&mut dst, "/");
    let spec = CommandSpec::new("rsync").arg("-a").arg("--info=progress2").arg("--exclude=.cache").arg(
        "--exclude=.thumbnails",
    ).arg(src.as_str()).arg(dst.as_str()).timeout(43200);
    assert(arg_views(spec.args@) =~= seq![
        "-a"@,
        "--info=progress2"@,
        "--exclude=.cache"@,
        "--exclude=.thumbnails"@,
        d@ + "/"@,
        path_join(dest_root@, d@) + "/"@,
    ]);
    spec
}

/// The next copy of a backup run: refused with `SF-STATE-011` when the
/// folder is not one of the defaults (nothing executable, no arbitrary
/// path), else the rsync of it (user data: no privilege, so read-only
/// risk).
pub fn backup_step(exec: &Executor, d: &str, dest_root: &str) -> (r: Result<RunPlan, SysforgeError>)
    ensures
        !allowed_dir(d@) ==> (r matches Err(e) && e.code@ == error_code(ErrorDomain::State, 11)
            && e.message@ == "Pasta fora da lista permitida: "@ + d@
            && e.recommendation@ == "O backup só copia pastas do usuário conhecidas — nenhuma executável ou caminho arbitrário."@),
        allowed_dir(d@) ==> (r matches Ok(p) && match p {
            RunPlan::Execute(s, k) => s.program@ == "rsync"@ && arg_views(s.args@)[4] == d@ + "/"@
                && arg_views(s.args@)[5] == path_join(dest_root@, d@) + "/"@ && k == crate::executor::Risk::ReadOnly,
            RunPlan::Simulate(_, _) => false,
        }),
{
    if !is_allowed_dir(d) {
        let mut msg = String::from_str("Pasta fora da lista permitida: ");
        push_str(&mut msg, d);
        return Err(SysforgeError::new(ErrorDomain::State, 11, msg.as_str()).with_recommendation(
            "O backup só copia pastas do usuário conhecidas — nenhuma executável ou caminho arbitrário.",
        ));
    }
    let spec = rsync_spec(d, dest_root);
    Ok(exec.run_readonly(spec))
}

/// The outcome of the copy of `d`: its failure is the failure of rsync.
pub fn backup_outcome(d: &str, r: &ExecResult) -> (out: Result<(), SysforgeError>)
    ensures
        r.exit_code == Some(0i32) <==> out is Ok,
        out matches Err(e) ==> e.code@ == error_code(ErrorDomain::Io, 1)
            && e.technical@ == "`"@ + "rsync"@ + " "@ + joined_args(seq![d@]) + "` terminou com status "@
            + exit_debug(r.exit_code) + ". stderr: "@ + trim(r.stderr@),
{
    if r.success() {
        return Ok(());
    }
    let mut args: Vec<String> = Vec::new();
    args.push(String::from_str(d));
    let e = SysforgeError::command_failed("rsync", args.as_slice(), r.exit_code, r.stderr.as_str());
    proof {
        assert(args@.map_values(|a: String| a@) =~= seq![d@]);
    }
    Err(e)
}

} // verus!
