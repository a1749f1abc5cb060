//! The single exit door for system commands — its decisions.
//!
//! Every command is `program + args` (no shell), with a timeout and a
//! deterministic environment. Risk classes:
//! - `ReadOnly`: never changes the system; runs even in dry-run.
//! - `LowRisk`: reversible change; only recorded (`WOULD_RUN`) in dry-run.
//! - `Destructive`: erases data; requires an `operation_id`, refuses the
//!   disk hosting the live rootfs, and aborts on an identity mismatch.
//!
//! Spawning the process is the edge's work: this module decides whether a
//! command runs or is simulated, and builds the results and errors.

use vstd::prelude::*;

use crate::disk::identity::DiskIdentity;
use crate::error::{error_code, escaped, shell_escape, ErrorDomain, SysforgeError};
use crate::text::{
    chars_of, clone_string, lines, lines_of, opt_view, push_dec, push_str, str_eq, string_from,
    trim, trim_bounds, words, words_of, dec,
};

verus! {

/// Risk class of an operation; decides authorization in the daemon.
#[derive(Debug, Clone, Copy, PartialEq, Eq, Structural)]
pub enum Risk {
    ReadOnly,
    LowRisk,
    Destructive,
}

impl Risk {
    pub fn label(self) -> (r: &'static str)
        ensures
            r@ == match self {
                Risk::ReadOnly => "READ_ONLY"@,
                Risk::LowRisk => "LOW_RISK"@,
                Risk::Destructive => "DESTRUCTIVE"@,
            },
    {
        match self {
            Risk::ReadOnly => "READ_ONLY",
            Risk::LowRisk => "LOW_RISK",
            Risk::Destructive => "DESTRUCTIVE",
        }
    }
}

/// Execution mode. `DryRun` runs read-only commands for real (the plan
/// needs real data) and only records the others.
#[derive(Debug, Clone, Copy, PartialEq, Eq, Structural)]
pub enum ExecutorMode {
    Real,
    DryRun,
}

/// Specification of an external command.
#[derive(Debug, Clone)]
pub struct CommandSpec {
    pub program: String,
    pub args: Vec<String>,
    /// Extra environment, applied in order (a later entry for the same key wins).
    pub env: Vec<(String, String)>,
    /// Time limit in seconds.
    pub timeout_secs: u64,
}

/// The environment a command runs with, as a map (later entries win).
pub open spec fn env_map(env: Seq<(String, String)>) -> Map<Seq<char>, Seq<char>>
    decreases env.len(),
{
    if env.len() == 0 {
        Map::empty()
    } else {
        env_map(env.drop_last()).insert(env.last().0@, env.last().1@)
    }
}

/// The log line of a command: program, then each argument escaped.
pub open spec fn display_line(program: Seq<char>, args: Seq<Seq<char>>) -> Seq<char>
    decreases args.len(),
{
    if args.len() == 0 {
        program
    } else {
        display_line(program, args.drop_last()) + " "@ + escaped(args.last())
    }
}

pub open spec fn arg_views(args: Seq<String>) -> Seq<Seq<char>> {
    args.map_values(|a: String| a@)
}

impl CommandSpec {
    pub fn new(program: &str) -> (s: Self)
        ensures
            s.program@ == program@,
            s.args@.len() == 0,
            s.env@.len() == 0,
            s.timeout_secs == 30,
    {
        CommandSpec {
            program: String::from_str(program),
            args: Vec::new(),
            env: Vec::new(),
            timeout_secs: 30,
        }
    }

    pub fn arg(self, a: &str) -> (s: Self)
        ensures
            s.program == self.program,
            arg_views(s.args@) == arg_views(self.args@).push(a@),
            s.env == self.env,
            s.timeout_secs == self.timeout_secs,
    {
        let mut me = self;
        me.args.push(String::from_str(a));
        assert(arg_views(me.args@) =~= arg_views(self.args@).push(a@));
        me
    }

    pub fn args(self, items: &[String]) -> (s: Self)
        ensures
            s.program == self.program,
            arg_views(s.args@) == arg_views(self.args@) + arg_views(items@),
            s.env == self.env,
            s.timeout_secs == self.timeout_secs,
    {
        let mut me = self;
        let mut i: usize = 0;
        while i < items.len()
            invariant
                i <= items.len(),
                me.program == self.program,
                me.env == self.env,
                me.timeout_secs == self.timeout_secs,
                arg_views(me.args@) == arg_views(self.args@) + arg_views(items@.take(i as int)),
            decreases items.len() - i,
        {
            let ghost before = me.args@;
            let x = clone_string(&items[i]);
            me.args.push(x);
            assert(items@.take(i + 1) =~= items@.take(i as int).push(items@[i as int]));
            assert(arg_views(me.args@) =~= arg_views(before).push(x@));
            assert(arg_views(items@.take(i + 1)) =~= arg_views(items@.take(i as int)).push(x@));
            assert(arg_views(me.args@) =~= arg_views(self.args@) + arg_views(items@.take(i + 1)));
            i += 1;
        }
        assert(items@.take(items.len() as int) =~= items@);
        me
    }

    pub fn env(self, k: &str, v: &str) -> (s: Self)
        ensures
            s.program == self.program,
            s.args == self.args,
            env_map(s.env@) == env_map(self.env@).insert(k@, v@),
            s.timeout_secs == self.timeout_secs,
    {
        let mut me = self;
        me.env.push((String::from_str(k), String::from_str(v)));
        assert(me.env@.drop_last() =~= self.env@);
        me
    }

    pub fn timeout(self, secs: u64) -> (s: Self)
        ensures
            s.program == self.program,
            s.args == self.args,
            s.env == self.env,
            s.timeout_secs == secs,
    {
        CommandSpec { timeout_secs: secs, ..self }
    }

    /// The environment the process gets: the deterministic locale
    /// (`LC_ALL=C`, `LANG=C`, so that parsing does not depend on the user's
    /// locale), then the command's own entries, which win on the same key.
    pub fn process_env(&self) -> (r: Vec<(String, String)>)
        ensures
            r@.len() == self.env@.len() + 2,
            r@[0].0@ == "LC_ALL"@ && r@[0].1@ == "C"@,
            r@[1].0@ == "LANG"@ && r@[1].1@ == "C"@,
            forall|k: int| 0 <= k < self.env@.len() ==> (#[trigger] r@[k + 2]).0@ == self.env@[k].0@ && r@[k
                + 2].1@ == self.env@[k].1@,
            env_map(r@) == env_map(seq![(r@[0].0, r@[0].1), (r@[1].0, r@[1].1)]).union_prefer_right(
                env_map(self.env@),
            ),
    {
        let mut r: Vec<(String, String)> = Vec::new();
        r.push((String::from_str("LC_ALL"), String::from_str("C")));
        r.push((String::from_str("LANG"), String::from_str("C")));
        let ghost base = r@;
        let mut i: usize = 0;
        while i < self.env.len()
            invariant
                i <= self.env.len(),
                r@.len() == i + 2,
                r@[0] == base[0] && r@[1] == base[1],
                base.len() == 2,
                forall|k: int| 0 <= k < i ==> (#[trigger] r@[k + 2]).0@ == self.env@[k].0@ && r@[k + 2].1@
                    == self.env@[k].1@,
                env_map(r@) == env_map(base).union_prefer_right(env_map(self.env@.take(i as int))),
            decreases self.env.len() - i,
        {
            let k = clone_string(&self.env[i].0);
            let v = clone_string(&self.env[i].1);
            let ghost before = r@;
            r.push((k, v));
            proof {
                assert(r@.drop_last() =~= before);
                assert(self.env@.take(i + 1).drop_last() =~= self.env@.take(i as int));
                assert(env_map(r@) =~= env_map(base).union_prefer_right(env_map(self.env@.take(i + 1))));
            }
            i += 1;
        }
        proof {
            assert(self.env@.take(self.env.len() as int) =~= self.env@);
            assert(base =~= seq![(r@[0].0, r@[0].1), (r@[1].0, r@[1].1)]);
        }
        r
    }

    /// Command line for the log (escaped; no shell involved).
    pub fn display(&self) -> (r: String)
        ensures
            r@ == display_line(self.program@, arg_views(self.args@)),
    {
        let mut s = clone_string(&self.program);
        let mut i: usize = 0;
        while i < self.args.len()
            invariant
                i <= self.args.len(),
                s@ == display_line(self.program@, arg_views(self.args@).take(i as int)),
            decreases self.args.len() - i,
        {
            push_str(&mut s, " ");
            let e = shell_escape(self.args[i].as_str());
            push_str(&mut s, e.as_str());
            proof {
                let t = arg_views(self.args@).take(i + 1);
                assert(t.drop_last() =~= arg_views(self.args@).take(i as int));
                assert(s@ =~= display_line(self.program@, t));
            }
            i += 1;
        }
        assert(arg_views(self.args@).take(self.args.len() as int) =~= arg_views(self.args@));
        s
    }
}

/// Result of running (or simulating) a command.
#[derive(Debug, Clone)]
pub struct ExecResult {
    pub program: String,
    pub cmdline: String,
    pub exit_code: Option<i32>,
    pub stdout: String,
    pub stderr: String,
    pub duration_ms: u128,
    pub risk: Risk,
    /// True when simulated (dry-run) and not executed.
    pub simulated: bool,
    pub timed_out: bool,
}

impl ExecResult {
    pub fn success(&self) -> (b: bool)
        ensures
            b == (self.exit_code == Some(0i32)),
    {
        match self.exit_code {
            Some(c) => c == 0,
            None => false,
        }
    }

    pub fn error_if_failed(&self) -> (r: Result<&ExecResult, SysforgeError>)
        ensures
            self.exit_code == Some(0i32) ==> r == Ok::<&ExecResult, SysforgeError>(self),
            self.exit_code != Some(0i32) ==> (r matches Err(e) && e.code@ == error_code(
                ErrorDomain::Io,
                1,
            ) && e.message@ == "O comando `"@ + self.program@ + "` falhou"@),
    {
        if self.success() {
            Ok(self)
        } else {
            let no_args: Vec<String> = Vec::new();
            Err(SysforgeError::command_failed(self.program.as_str(), no_args.as_slice(), self.exit_code, self.stderr.as_str()))
        }
    }
}

/// What to do with a command: run it, or only record it.
#[derive(Debug, Clone)]
pub enum RunPlan {
    Execute(CommandSpec, Risk),
    Simulate(CommandSpec, Risk),
}

/// Executor with Real/DryRun mode and safety guards.
#[derive(Debug, Clone)]
pub struct Executor {
    mode: ExecutorMode,
    /// Only QEMU/loop development unlocks destructive work on the live
    /// system disk. Default: false.
    allow_host_disk_destructive: bool,
}

impl Executor {
    pub closed spec fn spec_mode(&self) -> ExecutorMode {
        self.mode
    }

    pub closed spec fn spec_allow_host_disk(&self) -> bool {
        self.allow_host_disk_destructive
    }

    pub fn new(mode: ExecutorMode) -> (e: Self)
        ensures
            e.spec_mode() == mode,
            !e.spec_allow_host_disk(),
    {
        Executor { mode, allow_host_disk_destructive: false }
    }

    /// The real-mode executor.
    pub fn default() -> (e: Self)
        ensures
            e.spec_mode() == ExecutorMode::Real,
            !e.spec_allow_host_disk(),
    {
        Self::new(ExecutorMode::Real)
    }

    pub fn mode(&self) -> (m: ExecutorMode)
        ensures
            m == self.spec_mode(),
    {
        self.mode
    }

    pub fn allow_host_disk(self, allow: bool) -> (e: Self)
        ensures
            e.spec_mode() == self.spec_mode(),
            e.spec_allow_host_disk() == allow,
    {
        Executor { allow_host_disk_destructive: allow, ..self }
    }

    /// Dry-run simulates everything but read-only commands.
    pub open spec fn simulates(&self, risk: Risk) -> bool {
        self.spec_mode() == ExecutorMode::DryRun && risk != Risk::ReadOnly
    }

    pub fn plan(&self, spec: CommandSpec, risk: Risk) -> (p: RunPlan)
        ensures
            self.simulates(risk) ==> p == RunPlan::Simulate(spec, risk),
            !self.simulates(risk) ==> p == RunPlan::Execute(spec, risk),
    {
        if self.mode == ExecutorMode::DryRun && risk != Risk::ReadOnly {
            RunPlan::Simulate(spec, risk)
        } else {
            RunPlan::Execute(spec, risk)
        }
    }

    /// Read-only commands run for real in every mode.
    pub fn run_readonly(&self, spec: CommandSpec) -> (p: RunPlan)
        ensures
            p == RunPlan::Execute(spec, Risk::ReadOnly),
    {
        self.plan(spec, Risk::ReadOnly)
    }

    /// Low-risk commands run in real mode and are only recorded in dry-run.
    pub fn run_low_risk(&self, spec: CommandSpec) -> (p: RunPlan)
        ensures
            self.spec_mode() == ExecutorMode::DryRun ==> p == RunPlan::Simulate(spec, Risk::LowRisk),
            self.spec_mode() == ExecutorMode::Real ==> p == RunPlan::Execute(spec, Risk::LowRisk),
    {
        self.plan(spec, Risk::LowRisk)
    }

    /// Destructive commands behind every barrier: a non-blank
    /// `operation_id`, the live-rootfs guard against `host_root` (the
    /// device mounted on `/`, when known), and the identity revalidated just
    /// before (`revalidation`), which aborts in real mode.
    pub fn run_destructive(
        &self,
        spec: CommandSpec,
        identity: &DiskIdentity,
        operation_id: &str,
        host_root: &Option<String>,
        revalidation: Result<(), SysforgeError>,
    ) -> (r: Result<RunPlan, SysforgeError>)
        ensures
            trim(operation_id@).len() == 0 ==> (r matches Err(e) && e.code@ == error_code(
                ErrorDomain::State,
                1,
            )),
            trim(operation_id@).len() > 0 && guard_refuses(
                identity.path@,
                opt_view(*host_root),
                self.spec_allow_host_disk(),
            ) ==> (r matches Err(e) && e.code@ == error_code(ErrorDomain::Disk, 10)),
            trim(operation_id@).len() > 0 && !guard_refuses(
                identity.path@,
                opt_view(*host_root),
                self.spec_allow_host_disk(),
            ) ==> match revalidation {
                Err(e) => if self.spec_mode() == ExecutorMode::Real {
                    r == Err::<RunPlan, SysforgeError>(e)
                } else {
                    r == Ok::<RunPlan, SysforgeError>(RunPlan::Simulate(spec, Risk::Destructive))
                },
                Ok(()) => r == Ok::<RunPlan, SysforgeError>(
                    if self.spec_mode() == ExecutorMode::DryRun {
                        RunPlan::Simulate(spec, Risk::Destructive)
                    } else {
                        RunPlan::Execute(spec, Risk::Destructive)
                    },
                ),
            },
    {
        let id_chars = chars_of(operation_id);
        let (a, b) = trim_bounds(id_chars.as_slice());
        if a == b {
            return Err(SysforgeError::new(
                ErrorDomain::State,
                1,
                "Operação destrutiva sem operation_id registrado",
            ).with_recommendation(
                "Isto é um bug interno: toda operação destrutiva precisa de um operation_id persistido antes de executar.",
            ));
        }
        match host_root {
            Some(host_disk) => {
                let target_disk = match disk_of_partition(identity.path.as_str()) {
                    Some(d) => d,
                    None => clone_string(&identity.path),
                };
                if targets_same_disk(target_disk.as_str(), host_disk.as_str())
                    && !self.allow_host_disk_destructive {
                    let mut tech = String::from_str("guard do host: alvo ");
                    push_str(&mut tech, target_disk.as_str());
                    push_str(&mut tech, " contém o rootfs em ");
                    push_str(&mut tech, host_disk.as_str());
                    return Err(SysforgeError::new(
                        ErrorDomain::Disk,
                        10,
                        "Operação destrutiva recusada: o alvo é o disco do sistema em execução",
                    ).with_technical(tech.as_str()).with_recommendation(
                        "Testes destrutivos devem ocorrer em discos virtuais (QEMU/loop). Para liberar explicitamente em disco físico, use a confirmação digitada na UI com o modo desenvolvedor.",
                    ));
                }
            },
            None => {},
        }
        match revalidation {
            Err(e) => {
                if self.mode == ExecutorMode::Real {
                    return Err(e);
                }
            },
            Ok(()) => {},
        }
        Ok(self.plan(spec, Risk::Destructive))
    }
}

/// The record of a command that was only simulated (dry-run).
pub fn simulated_result(spec: &CommandSpec, risk: Risk, duration_ms: u128) -> (r: ExecResult)
    ensures
        r.program@ == spec.program@,
        r.cmdline@ == display_line(spec.program@, arg_views(spec.args@)),
        r.exit_code == Some(0i32),
        r.stdout@.len() == 0,
        r.stderr@.len() == 0,
        r.duration_ms == duration_ms,
        r.risk == risk,
        r.simulated,
        !r.timed_out,
{
    ExecResult {
        program: clone_string(&spec.program),
        cmdline: spec.display(),
        exit_code: Some(0),
        stdout: String::new(),
        stderr: String::new(),
        duration_ms,
        risk,
        simulated: true,
        timed_out: false,
    }
}

/// The record of a command that ran to completion.
pub fn finished_result(
    spec: &CommandSpec,
    risk: Risk,
    exit_code: Option<i32>,
    stdout: String,
    stderr: String,
    duration_ms: u128,
) -> (r: ExecResult)
    ensures
        r.program@ == spec.program@,
        r.cmdline@ == display_line(spec.program@, arg_views(spec.args@)),
        r.exit_code == exit_code,
        r.stdout == stdout,
        r.stderr == stderr,
        r.duration_ms == duration_ms,
        r.risk == risk,
        !r.simulated,
        !r.timed_out,
{
    ExecResult {
        program: clone_string(&spec.program),
        cmdline: spec.display(),
        exit_code,
        stdout,
        stderr,
        duration_ms,
        risk,
        simulated: false,
        timed_out: false,
    }
}

/// The error for a program that could not be started.
pub fn spawn_failed(program: &str, detail: &str) -> (e: SysforgeError)
    ensures
        e.code@ == error_code(ErrorDomain::Dep, 2),
        e.message@ == "Não foi possível executar `"@ + program@ + "`"@,
        e.technical@ == detail@,
{
    let mut msg = String::from_str("Não foi possível executar `");
    push_str(&mut msg, program);
    push_str(&mut msg, "`");
    SysforgeError::new(ErrorDomain::Dep, 2, msg.as_str()).with_technical(detail).with_recommendation(
        "Verifique se o binário existe (`sysforge doctor` verifica dependências).",
    )
}

/// The error for a program killed at its time limit.
pub fn timed_out(program: &str, secs: u64) -> (e: SysforgeError)
    ensures
        e.code@ == error_code(ErrorDomain::Io, 4),
        e.message@ == "`"@ + program@ + "` excedeu o tempo limite de "@ + dec(secs as nat) + "s"@,
{
    let mut msg = String::from_str("`");
    push_str(&mut msg, program);
    push_str(&mut msg, "` excedeu o tempo limite de ");
    push_dec(&mut msg, secs);
    push_str(&mut msg, "s");
    SysforgeError::new(ErrorDomain::Io, 4, &msg).with_recommendation(
        "Aumente o timeout nas configurações ou investigue o travamento da ferramenta.",
    )
}


// ---------------------------------------------------------------- disks and paths

/// A single path component as device names are: not empty, no `/`, and
/// neither `.` nor `..`.
pub open spec fn plain_name(n: Seq<char>) -> bool {
    n.len() > 0 && !n.contains('/') && n != seq!['.'] && n != seq!['.', '.']
}

/// Index of the last `/` in a path, or -1.
pub open spec fn last_slash(p: Seq<char>) -> int
    decreases p.len(),
{
    if p.len() == 0 {
        -1
    } else if p.last() == '/' {
        p.len() - 1
    } else {
        last_slash(p.drop_last())
    }
}

/// A path of plain components joined by single `/`, from the root or not,
/// with no trailing `/` (such as `/dev/sda2` or `sda2`).
pub open spec fn simple_path(p: Seq<char>) -> bool
    decreases p.len(),
{
    let k = last_slash(p);
    if k < 0 {
        plain_name(p)
    } else {
        plain_name(p.skip(k + 1)) && (k == 0 || (k < p.len() && simple_path(p.take(k))))
    }
}

/// `Path::file_name` of a path that is not simple, as text.
pub uninterp spec fn path_file_name(p: Seq<char>) -> Option<Seq<char>>;

/// `Path::parent` of a path that is not simple, as text.
pub uninterp spec fn path_parent(p: Seq<char>) -> Option<Seq<char>>;

/// `Path::file_name` as text: the last component of a simple path.
pub open spec fn file_name_text(p: Seq<char>) -> Option<Seq<char>> {
    if simple_path(p) {
        Some(p.skip(last_slash(p) + 1))
    } else {
        path_file_name(p)
    }
}

/// `Path::parent` as text: a simple path without its last component (the
/// root for a component under it, empty for a single relative one).
pub open spec fn parent_text(p: Seq<char>) -> Option<Seq<char>> {
    if simple_path(p) {
        Some(
            if last_slash(p) < 0 {
                Seq::empty()
            } else if last_slash(p) == 0 {
                seq!['/']
            } else {
                p.take(last_slash(p))
            },
        )
    } else {
        path_parent(p)
    }
}

/// `Path::new(p).file_name()` as a `String`: the final component. For a
/// simple path that is the text after the last `/`; for other paths (with
/// `.`, `..`, repeated or trailing separators) std's rules decide, and the
/// contract names the result.
#[verifier::external_body]
fn file_name_raw(p: &str) -> (r: Option<String>)
    ensures
        simple_path(p@) ==> opt_view(r) == Some(p@.skip(last_slash(p@) + 1)),
        !simple_path(p@) ==> opt_view(r) == path_file_name(p@),
{
    std::path::Path::new(p).file_name().and_then(|n| n.to_str()).map(|n| n.to_string())
}

/// `Path::new(p).parent()` as a `String`: the path without its final
/// component. For a simple path that is the text before the last `/` (the
/// root `/` when that is the only one, empty when there is none); for
/// other paths std's rules decide, and the contract names the result.
#[verifier::external_body]
fn parent_raw(p: &str) -> (r: Option<String>)
    ensures
        simple_path(p@) ==> opt_view(r) == Some(
            if last_slash(p@) < 0 {
                Seq::empty()
            } else if last_slash(p@) == 0 {
                seq!['/']
            } else {
                p@.take(last_slash(p@))
            },
        ),
        !simple_path(p@) ==> opt_view(r) == path_parent(p@),
{
    std::path::Path::new(p).parent().map(|q| q.to_string_lossy().to_string())
}

/// The file name of a path (see [`file_name_text`]).
pub(crate) fn file_name_of(p: &str) -> (r: Option<String>)
    ensures
        opt_view(r) == file_name_text(p@),
{
    file_name_raw(p)
}

/// The parent of a path (see [`parent_text`]).
fn parent_of(p: &str) -> (r: Option<String>)
    ensures
        opt_view(r) == parent_text(p@),
{
    parent_raw(p)
}

/// Joining two paths with Unix separators, as `Path::join` does there: an
/// absolute `name` replaces `base`; otherwise a `/` goes between them
/// unless `base` is empty or already ends with one.
pub open spec fn path_join(base: Seq<char>, name: Seq<char>) -> Seq<char> {
    if name.len() > 0 && name[0] == '/' {
        name
    } else if base.len() == 0 || base.last() == '/' {
        base + name
    } else {
        base + "/"@ + name
    }
}

pub(crate) fn join_path(base: &str, name: &str) -> (r: String)
    ensures
        r@ == path_join(base@, name@),
{
    let b = chars_of(base);
    let n = chars_of(name);
    let mut out = String::new();
    if n.len() > 0 && n[0] == '/' {
        push_str(&mut out, name);
        assert(out@ =~= name@);
        return out;
    }
    push_str(&mut out, base);
    if b.len() > 0 && b[b.len() - 1] != '/' {
        push_str(&mut out, "/");
        proof {
            reveal_strlit("/");
        }
    }
    push_str(&mut out, name);
    assert(out@ =~= path_join(base@, name@));
    out
}

/// A name with its run of trailing decimal digits removed.
pub open spec fn strip_digits(s: Seq<char>) -> Seq<char>
    decreases s.len(),
{
    if s.len() > 0 && crate::text::is_digit(s.last()) {
        strip_digits(s.drop_last())
    } else {
        s
    }
}

/// Kernel disk families whose whole-disk names end in a number (`nvme0n1`,
/// `mmcblk0`, `loop0`, `md127`, ...); their partitions add `p` and a number.
pub open spec fn digit_named(name: Seq<char>) -> bool {
    crate::text::starts_with(name, "nvme"@) || crate::text::starts_with(name, "mmcblk"@)
        || crate::text::starts_with(name, "loop"@) || crate::text::starts_with(name, "nbd"@)
        || crate::text::starts_with(name, "md"@) || crate::text::starts_with(name, "dm-"@)
        || crate::text::starts_with(name, "sr"@) || crate::text::starts_with(name, "zram"@)
}

/// Does the name end in a digit followed by the partition separator `p`?
pub open spec fn ends_digit_p(x: Seq<char>) -> bool {
    x.len() > 1 && x.last() == 'p' && crate::text::is_digit(x.drop_last().last())
}

/// The disk part of a device name. Its trailing number is removed, and with
/// it a `p` separator that follows a digit (`sda12` → `sda`, `nvme0n1p3` →
/// `nvme0n1`); a name of a family whose disks end in a number, with no `p`
/// separator, is a whole disk and stays (`nvme0n1`, `mmcblk0`); a name that
/// ends in no digit stays (`sda`).
pub open spec fn partition_base(name: Seq<char>) -> Seq<char> {
    let x = strip_digits(name);
    if x.len() == name.len() {
        name
    } else if ends_digit_p(x) {
        x.drop_last()
    } else if digit_named(name) {
        name
    } else {
        x
    }
}

/// The disk that holds a partition device path.
pub open spec fn disk_of(dev: Seq<char>) -> Option<Seq<char>> {
    match (file_name_text(dev), parent_text(dev)) {
        (Some(name), Some(stem)) => Some(path_join(stem, partition_base(name))),
        _ => None,
    }
}

fn is_ascii_digit(c: char) -> (b: bool)
    ensures
        b == crate::text::is_digit(c),
{
    '0' <= c && c <= '9'
}

fn starts_with_str(v: &[char], p: &str) -> (r: bool)
    ensures
        r == crate::text::starts_with(v@, p@),
{
    let pv = chars_of(p);
    assert(v@.skip(0) =~= v@);
    crate::text::starts_with_at(v, 0, pv.as_slice())
}

fn digit_named_exec(v: &[char]) -> (r: bool)
    ensures
        r == digit_named(v@),
{
    starts_with_str(v, "nvme") || starts_with_str(v, "mmcblk") || starts_with_str(v, "loop")
        || starts_with_str(v, "nbd") || starts_with_str(v, "md") || starts_with_str(v, "dm-")
        || starts_with_str(v, "sr") || starts_with_str(v, "zram")
}

/// Length of the disk part of a device name.
fn partition_base_len(v: &[char]) -> (k: usize)
    ensures
        k <= v.len(),
        v@.take(k as int) == partition_base(v@),
{
    let n = v.len();
    let mut j: usize = n;
    assert(v@.take(n as int) =~= v@);
    while j > 0 && is_ascii_digit(v[j - 1])
        invariant
            j <= n,
            n == v.len(),
            strip_digits(v@) == strip_digits(v@.take(j as int)),
        decreases j,
    {
        assert(v@.take(j as int).drop_last() =~= v@.take(j - 1));
        j -= 1;
    }
    assert(strip_digits(v@.take(j as int)) == v@.take(j as int));
    if j == n {
        n
    } else if j > 1 && v[j - 1] == 'p' && is_ascii_digit(v[j - 2]) {
        assert(v@.take(j as int).drop_last() =~= v@.take(j - 1));
        j - 1
    } else if digit_named_exec(v) {
        n
    } else {
        j
    }
}

/// The disk part of a device name (see [`partition_base`]):
/// "sda12" -> "sda", "nvme0n1p3" -> "nvme0n1", "nvme0n1" -> "nvme0n1".
pub fn partition_base_of(name: &str) -> (r: String)
    ensures
        r@ == partition_base(name@),
{
    let v = chars_of(name);
    let base_len = partition_base_len(v.as_slice());
    proof {
        assert(v@.subrange(0, base_len as int) =~= v@.take(base_len as int));
    }
    crate::text::string_range(v.as_slice(), 0, base_len)
}

/// "/dev/sda2" -> "/dev/sda"; "/dev/nvme0n1p2" -> "/dev/nvme0n1";
/// "/dev/sda" -> "/dev/sda"; "/dev/nvme0n1" -> "/dev/nvme0n1".
pub fn disk_of_partition(dev: &str) -> (r: Option<String>)
    ensures
        opt_view(r) == disk_of(dev@),
{
    let name = match file_name_of(dev) {
        Some(n) => n,
        None => return None,
    };
    let stem = match parent_of(dev) {
        Some(p) => p,
        None => return None,
    };
    let base = partition_base_of(name.as_str());
    Some(join_path(stem.as_str(), base.as_str()))
}

/// Every leading `"/dev/"` removed (`str::trim_start_matches("/dev/")`).
pub open spec fn strip_dev(s: Seq<char>) -> Seq<char>
    decreases s.len(),
{
    if crate::text::starts_with(s, "/dev/"@) {
        proof {
            reveal_strlit("/dev/");
        }
        strip_dev(s.skip(5))
    } else {
        s
    }
}

/// A device reduced to its base disk (itself when it has none).
pub open spec fn base_disk(s: Seq<char>) -> Seq<char> {
    let n = strip_dev(s);
    match disk_of(n) {
        Some(d) => d,
        None => n,
    }
}

/// Do two device paths name the same base disk?
pub open spec fn same_disk(a: Seq<char>, b: Seq<char>) -> bool {
    base_disk(a) == base_disk(b)
}

/// The target disk of an identity path.
pub open spec fn target_disk_of(path: Seq<char>) -> Seq<char> {
    match disk_of(path) {
        Some(d) => d,
        None => path,
    }
}

/// Does the live-rootfs guard refuse a destructive operation on `path`?
pub open spec fn guard_refuses(path: Seq<char>, host_root: Option<Seq<char>>, allow: bool) -> bool {
    match host_root {
        Some(h) => same_disk(target_disk_of(path), h) && !allow,
        None => false,
    }
}

/// How the kernel names partition `n` of a disk: with a `p` between them
/// when the disk's name ends in a digit.
pub open spec fn partition_name(disk: Seq<char>, n: Seq<char>) -> Seq<char> {
    if crate::text::is_digit(disk.last()) {
        disk + "p"@ + n
    } else {
        disk + n
    }
}

/// A whole-disk name as the kernel gives them: non-empty, ending in a digit
/// exactly for the families whose names do, and with no partition suffix.
pub open spec fn whole_disk_name(d: Seq<char>) -> bool {
    d.len() > 0 && digit_named(d) == crate::text::is_digit(d.last()) && !ends_digit_p(
        strip_digits(d),
    )
}

proof fn lemma_strip_digits_append(a: Seq<char>, n: Seq<char>)
    requires
        crate::text::all_digits(n),
    ensures
        strip_digits(a + n) == strip_digits(a),
    decreases n.len(),
{
    if n.len() > 0 {
        assert((a + n).drop_last() =~= a + n.drop_last());
        assert(crate::text::is_digit(n[n.len() - 1]));
        lemma_strip_digits_append(a, n.drop_last());
    } else {
        assert(a + n =~= a);
    }
}

proof fn lemma_prefix_with_digits(a: Seq<char>, n: Seq<char>, p: Seq<char>)
    requires
        crate::text::all_digits(n),
        forall|k: int| 0 <= k < p.len() ==> !crate::text::is_digit(#[trigger] p[k]),
    ensures
        crate::text::starts_with(a + n, p) == crate::text::starts_with(a, p),
{
    if p.len() <= a.len() {
        assert((a + n).take(p.len() as int) =~= a.take(p.len() as int));
    } else if crate::text::starts_with(a + n, p) {
        let k = a.len() as int;
        assert((a + n).take(p.len() as int)[k] == p[k]);
        assert(crate::text::is_digit(n[0]));
    }
}

proof fn lemma_digit_named_append(a: Seq<char>, n: Seq<char>)
    requires
        crate::text::all_digits(n),
    ensures
        digit_named(a + n) == digit_named(a),
{
    reveal_strlit("nvme");
    reveal_strlit("mmcblk");
    reveal_strlit("loop");
    reveal_strlit("nbd");
    reveal_strlit("md");
    reveal_strlit("dm-");
    reveal_strlit("sr");
    reveal_strlit("zram");
    lemma_prefix_with_digits(a, n, "nvme"@);
    lemma_prefix_with_digits(a, n, "mmcblk"@);
    lemma_prefix_with_digits(a, n, "loop"@);
    lemma_prefix_with_digits(a, n, "nbd"@);
    lemma_prefix_with_digits(a, n, "md"@);
    lemma_prefix_with_digits(a, n, "dm-"@);
    lemma_prefix_with_digits(a, n, "sr"@);
    lemma_prefix_with_digits(a, n, "zram"@);
}

/// A whole disk is its own disk part.
pub proof fn law_whole_disk_is_its_own_base(d: Seq<char>)
    requires
        whole_disk_name(d),
    ensures
        partition_base(d) == d,
{
}

/// Every partition of a whole disk, whatever its number, maps back to
/// that disk.
pub proof fn law_partition_maps_to_its_disk(d: Seq<char>, n: Seq<char>)
    requires
        whole_disk_name(d),
        n.len() > 0,
        crate::text::all_digits(n),
    ensures
        partition_base(partition_name(d, n)) == d,
{
    reveal_strlit("p");
    if crate::text::is_digit(d.last()) {
        lemma_strip_digits_append(d + "p"@, n);
        assert(strip_digits(d + "p"@) == d + "p"@);
        assert((d + "p"@).drop_last() =~= d);
    } else {
        lemma_strip_digits_append(d, n);
        lemma_digit_named_append(d, n);
    }
}

proof fn lemma_last_slash_append(a: Seq<char>, t: Seq<char>)
    requires
        !t.contains('/'),
    ensures
        last_slash(a + t) == last_slash(a),
    decreases t.len(),
{
    if t.len() == 0 {
        assert(a + t =~= a);
    } else {
        assert((a + t).drop_last() =~= a + t.drop_last());
        assert((a + t).last() == t[t.len() - 1]);
        assert(!t.drop_last().contains('/')) by {
            if t.drop_last().contains('/') {
                let i = choose|i: int| 0 <= i < t.drop_last().len() && t.drop_last()[i] == '/';
                assert(t[i] == '/');
            }
        }
        lemma_last_slash_append(a, t.drop_last());
    }
}

proof fn lemma_plain_is_simple(x: Seq<char>)
    requires
        plain_name(x),
    ensures
        last_slash(x) == -1,
        simple_path(x),
        file_name_text(x) == Some(x),
        parent_text(x) == Some(Seq::<char>::empty()),
{
    lemma_last_slash_append(Seq::<char>::empty(), x);
    assert(Seq::<char>::empty() + x =~= x);
    assert(x.skip(0) =~= x);
}

/// A destructive operation aimed at a whole disk is refused, unless it is
/// explicitly allowed, when the live root filesystem sits on any partition
/// of that disk.
pub proof fn law_live_disk_is_refused(d: Seq<char>, n: Seq<char>)
    requires
        whole_disk_name(d),
        plain_name(d),
        n.len() > 0,
        crate::text::all_digits(n),
    ensures
        guard_refuses("/dev/"@ + d, Some("/dev/"@ + partition_name(d, n)), false),
{
    reveal_strlit("/dev/");
    reveal_strlit("/dev");
    reveal_strlit("/");
    reveal_strlit("p");
    reveal_strlit("dev");
    law_whole_disk_is_its_own_base(d);
    law_partition_maps_to_its_disk(d, n);
    let q = partition_name(d, n);
    // the partition's name is a plain name too
    assert(!q.contains('/')) by {
        if q.contains('/') {
            let i = choose|i: int| 0 <= i < q.len() && q[i] == '/';
            if i < d.len() {
                assert(q[i] == d[i]);
            } else if crate::text::is_digit(d.last()) {
                if i > d.len() {
                    assert(q[i] == n[i - d.len() - 1]);
                    assert(crate::text::is_digit(n[i - d.len() - 1]));
                }
            } else {
                assert(q[i] == n[i - d.len()]);
                assert(crate::text::is_digit(n[i - d.len()]));
            }
        }
    }
    assert(q != seq!['.']) by {
        assert(q.len() >= 2);
    }
    assert(q != seq!['.', '.']) by {
        if q == seq!['.', '.'] {
            assert(!crate::text::is_digit(d.last()));
            assert(q[1] == n[0]);
            assert(crate::text::is_digit(n[0]));
        }
    }
    lemma_plain_is_simple(d);
    lemma_plain_is_simple(q);
    // "/dev/<d>" is simple: file name d, parent "/dev"
    let dd = "/dev/"@ + d;
    assert(!"dev"@.contains('/')) by {
        if "dev"@.contains('/') {
            let i = choose|i: int| 0 <= i < "dev"@.len() && "dev"@[i] == '/';
        }
    }
    assert(plain_name("dev"@));
    assert("/dev"@ =~= "/"@ + "dev"@);
    lemma_last_slash_append("/"@, "dev"@);
    assert(last_slash("/"@) == 0);
    assert("/dev"@.skip(1) =~= "dev"@);
    assert(simple_path("/dev"@));
    lemma_last_slash_append("/dev/"@, d);
    assert(last_slash("/dev/"@) == 4);
    assert(dd.skip(5) =~= d);
    assert(dd.take(4) =~= "/dev"@);
    assert(simple_path(dd));
    assert(file_name_text(dd) == Some(d));
    assert(parent_text(dd) == Some("/dev"@));
    assert(path_join("/dev"@, d) =~= dd);
    assert(path_join(Seq::<char>::empty(), d) =~= d);
    assert(!crate::text::starts_with(d, "/dev/"@)) by {
        if crate::text::starts_with(d, "/dev/"@) {
            assert(d.take(5)[0] == d[0]);
            assert(d.contains('/'));
        }
    }
    assert(!crate::text::starts_with(q, "/dev/"@)) by {
        if crate::text::starts_with(q, "/dev/"@) {
            assert(q.take(5)[0] == q[0]);
            assert(q.contains('/'));
        }
    }
    assert(("/dev/"@ + q).skip(5) =~= q);
    assert(crate::text::starts_with(dd, "/dev/"@)) by {
        assert(dd.take(5) =~= "/dev/"@);
    }
    assert(crate::text::starts_with("/dev/"@ + q, "/dev/"@)) by {
        assert(("/dev/"@ + q).take(5) =~= "/dev/"@);
    }
    assert(strip_dev(d) == d);
    assert(strip_dev(q) == q);
    assert(strip_dev(dd) == d);
    assert(strip_dev("/dev/"@ + q) == q);
    assert(path_join(Seq::<char>::empty(), partition_base(q)) =~= d);
}

fn strip_dev_exec(s: &str) -> (r: String)
    ensures
        r@ == strip_dev(s@),
{
    let v = chars_of(s);
    let dev: Vec<char> = chars_of("/dev/");
    proof {
        reveal_strlit("/dev/");
    }
    let mut i: usize = 0;
    assert(v@.skip(0) =~= v@);
    while crate::text::starts_with_at(v.as_slice(), i, dev.as_slice())
        invariant
            i <= v.len(),
            dev@ == "/dev/"@,
            dev@.len() == 5,
            strip_dev(v@) == strip_dev(v@.skip(i as int)),
        decreases v.len() - i,
    {
        proof {
            assert(v@.skip(i as int).skip(5) =~= v@.skip(i + 5));
        }
        i += 5;
    }
    crate::text::string_range(v.as_slice(), i, v.len())
}

fn base_disk_exec(s: &str) -> (r: String)
    ensures
        r@ == base_disk(s@),
{
    let n = strip_dev_exec(s);
    match disk_of_partition(n.as_str()) {
        Some(d) => d,
        None => n,
    }
}

/// Compares two device paths reduced to their base disks.
pub fn targets_same_disk(a: &str, b: &str) -> (r: bool)
    ensures
        r == same_disk(a@, b@),
{
    let da = base_disk_exec(a);
    let db = base_disk_exec(b);
    str_eq(da.as_str(), db.as_str())
}

/// The device mounted on `/` in a mounts table (the first such line that is
/// not an overlay/squashfs); a line with fewer than three fields ends the search.
pub open spec fn root_device(ls: Seq<Seq<char>>) -> Option<Seq<char>>
    decreases ls.len(),
{
    if ls.len() == 0 {
        None
    } else {
        let w = words(ls[0]);
        if w.len() < 3 {
            None
        } else if w[1] == "/"@ && w[2] != "overlay"@ && w[2] != "squashfs"@ {
            Some(w[0])
        } else {
            root_device(ls.drop_first())
        }
    }
}

/// Which device hosts the live rootfs ("/" for real, not in a container),
/// from the text of `/proc/mounts`.
pub fn host_root_disk(mounts: &str) -> (r: Option<String>)
    ensures
        opt_view(r) == root_device(lines(mounts@)),
{
    let content = chars_of(mounts);
    let ls = lines_of(content.as_slice());
    let ghost all = lines(mounts@);
    let mut i: usize = 0;
    assert(all.skip(0) =~= all);
    while i < ls.len()
        invariant
            i <= ls.len() == all.len(),
            all == lines(mounts@),
            forall|k: int| 0 <= k < ls@.len() ==> #[trigger] ls@[k]@ == all[k],
            root_device(all) == root_device(all.skip(i as int)),
        decreases ls.len() - i,
    {
        let w = words_of(ls[i].as_slice());
        proof {
            assert(all.skip(i as int)[0] == all[i as int]);
            assert(all.skip(i as int).drop_first() =~= all.skip(i + 1));
        }
        if w.len() < 3 {
            return None;
        }
        let slash: Vec<char> = chars_of("/");
        let overlay: Vec<char> = chars_of("overlay");
        let squash: Vec<char> = chars_of("squashfs");
        if crate::text::chars_eq(w[1].as_slice(), slash.as_slice()) && !crate::text::chars_eq(
            w[2].as_slice(),
            overlay.as_slice(),
        ) && !crate::text::chars_eq(w[2].as_slice(), squash.as_slice()) {
            return Some(string_from(w[0].as_slice()));
        }
        i += 1;
    }
    proof {
        assert(all.skip(i as int).len() == 0);
    }
    None
}

} // verus!
