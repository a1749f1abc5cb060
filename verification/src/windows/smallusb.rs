//! Optimized stick with DIRECT boot (the plain Microsoft method).
//!
//! The official ISO (six editions, ~7 GB) does not fit a 4 GB stick, but
//! the complete setup of ONE edition, compressed in the official solid
//! .esd/LZMS format, fits with room next to the boot files. The result is
//! a standard FAT32 stick: the firmware boots \EFI\Boot\bootx64.efi
//! natively, exactly like Microsoft's own media.

use vstd::prelude::*;

use crate::disk::identity::DiskIdentity;
use crate::error::{debug_of, debug_text, error_code, exit_debug, push_exit_debug, ErrorDomain, SysforgeError};
use crate::executor::{arg_views, join_path, path_join, CommandSpec, ExecResult};
use crate::text::{clone_string, dec, opt_view, push_dec, push_str};
use crate::windows::diskboot::{find_iso, first_best_iso};

verus! {

pub const WORK_DIR: &'static str = "/var/lib/sysforge/smallusb";
pub const ISO_MOUNT: &'static str = "/mnt/sysforge-iso";
pub const STICK_MOUNT: &'static str = "/mnt/sysforge-stick";
/// Marks the stick as prepared by this tool (the launcher trusts it for
/// BootNext).
pub const MARKER: &'static str = ".sysforge-prepared";

/// Editions by index of the official install.wim (PT-BR x64, the fixed
/// order of the 25H2 ISO; the build checks it again).
pub const EDITIONS: [(u32, &'static str); 2] = [(1, "Windows 11 Home"), (4, "Windows 11 Pro")];

/// Estimate of everything on the ISO but install.wim (boot.wim ~600 MiB +
/// efi/boot/setup tree ≈ 1.2 GiB).
pub const BOOT_TREE_BYTES: u64 = 1300000000;
/// Honest estimate of one edition in the official solid compression.
pub const ESD_ESTIMATE_BYTES: u64 = 2600000000;
/// Size assumed for a cached install.esd whose size cannot be read.
pub const ESD_UNREADABLE_BYTES: u64 = 3000000000;

#[derive(Debug, Clone)]
pub struct SmallUsbPlan {
    pub stick: String,
    pub stick_size_bytes: u64,
    pub edition_index: u32,
    pub edition_name: String,
    pub boot_tree_bytes: u64,
    pub esd_cached: bool,
    pub fits: bool,
}

/// The name of an edition index, if it is one of [`EDITIONS`].
pub open spec fn edition_name_of(index: u32) -> Option<Seq<char>> {
    if index == EDITIONS[0].0 {
        Some(EDITIONS[0].1@)
    } else if index == EDITIONS[1].0 {
        Some(EDITIONS[1].1@)
    } else {
        None
    }
}

/// The install.esd size the plan counts on.
pub open spec fn esd_size_of(esd_cached: bool, esd_size: Option<u64>) -> nat {
    if esd_cached {
        match esd_size {
            Some(n) => n as nat,
            None => ESD_UNREADABLE_BYTES as nat,
        }
    } else {
        ESD_ESTIMATE_BYTES as nat
    }
}

/// The stick holds the boot tree and the install.esd, with room left.
pub open spec fn fits_on(stick_size: u64, esd_cached: bool, esd_size: Option<u64>) -> bool {
    stick_size > BOOT_TREE_BYTES + esd_size_of(esd_cached, esd_size)
}

/// A cached install.esd is counted at its real size: the stick fits
/// exactly when it is larger than the boot tree plus that size, so a stick
/// no larger than those two never passes the space check; and a larger
/// real esd never fits where a smaller one did not.
pub proof fn law_cached_esd_counts_its_real_size(stick_size: u64, n: u64, m: u64)
    ensures
        fits_on(stick_size, true, Some(n)) == (stick_size as nat > BOOT_TREE_BYTES as nat + n as nat),
        stick_size as nat <= BOOT_TREE_BYTES as nat + n as nat ==> !fits_on(stick_size, true, Some(n)),
        m <= n && fits_on(stick_size, true, Some(n)) ==> fits_on(stick_size, true, Some(m)),
{
}

/// Whether or not the esd is cached, the stick must hold more than the
/// boot tree; an esd of unreadable size is counted at no less than the
/// estimate of one not yet downloaded.
pub proof fn law_space_check_is_conservative(stick_size: u64, cached: bool, size: Option<u64>)
    ensures
        fits_on(stick_size, cached, size) ==> stick_size as nat > BOOT_TREE_BYTES as nat,
        fits_on(stick_size, true, None) ==> fits_on(stick_size, false, size),
{
}

/// The plan, with the real space arithmetic, before anything is erased.
/// `deps_ok`: wimlib-imagex, mkfs.vfat, rsync and wipefs are installed;
/// `iso_found`: the Windows ISO was found; `stick_size`: size of the
/// stick; `esd_cached`: the edition's install.esd is in the cache, of
/// `esd_size` bytes when readable.
pub fn plan(
    stick: &str,
    edition_index: u32,
    deps_ok: bool,
    iso_found: bool,
    stick_size: u64,
    esd_cached: bool,
    esd_size: Option<u64>,
) -> (r: Result<SmallUsbPlan, SysforgeError>)
    ensures
        !deps_ok ==> (r matches Err(e) && e.code@ == error_code(ErrorDomain::Dep, 40)
            && e.message@ == "Faltam wimtools/dosfstools/rsync"@
            && e.recommendation@ == "sudo apt install -y wimtools dosfstools rsync"@),
        deps_ok && !iso_found ==> (r matches Err(e) && e.code@ == error_code(ErrorDomain::Boot, 41)
            && e.message@ == "ISO do Windows não encontrada em ~/Downloads (> 3 GiB)"@),
        deps_ok && iso_found && edition_name_of(edition_index) is None ==> (r matches Err(e)
            && e.code@ == error_code(ErrorDomain::Boot, 42)
            && e.message@ == "Edição "@ + dec(edition_index as nat) + " inválida — use 1 (Home) ou 4 (Pro)"@),
        deps_ok && iso_found && edition_name_of(edition_index) is Some ==> (r matches Ok(p)
            && p.stick@ == stick@ && p.stick_size_bytes == stick_size && p.edition_index == edition_index
            && Some(p.edition_name@) == edition_name_of(edition_index) && p.boot_tree_bytes == BOOT_TREE_BYTES
            && p.esd_cached == esd_cached && p.fits == fits_on(stick_size, esd_cached, esd_size)),
{
    if !deps_ok {
        return Err(SysforgeError::new(ErrorDomain::Dep, 40, "Faltam wimtools/dosfstools/rsync")
            .with_recommendation("sudo apt install -y wimtools dosfstools rsync"));
    }
    if !iso_found {
        return Err(SysforgeError::new(ErrorDomain::Boot, 41, "ISO do Windows não encontrada em ~/Downloads (> 3 GiB)"));
    }
    let name: &str = if edition_index == EDITIONS[0].0 {
        EDITIONS[0].1
    } else if edition_index == EDITIONS[1].0 {
        EDITIONS[1].1
    } else {
        let mut msg = String::from_str("Edição ");
        push_dec(&mut msg, edition_index as u64);
        push_str(&mut msg, " inválida — use 1 (Home) ou 4 (Pro)");
        return Err(SysforgeError::new(ErrorDomain::Boot, 42, msg.as_str()));
    };
    let esd: u64 = if esd_cached {
        match esd_size {
            Some(n) => n,
            None => ESD_UNREADABLE_BYTES,
        }
    } else {
        ESD_ESTIMATE_BYTES
    };
    let fits = if esd > u64::MAX - BOOT_TREE_BYTES {
        false
    } else {
        stick_size > BOOT_TREE_BYTES + esd
    };
    Ok(SmallUsbPlan {
        stick: String::from_str(stick),
        stick_size_bytes: stick_size,
        edition_index,
        edition_name: String::from_str(name),
        boot_tree_bytes: BOOT_TREE_BYTES,
        esd_cached,
        fits,
    })
}


/// The tools the build needs are all installed (each flag: found on the
/// PATH).
pub fn deps_ok(wimlib_imagex: bool, mkfs_vfat: bool, rsync: bool, wipefs: bool) -> (b: bool)
    ensures
        b == (wimlib_imagex && mkfs_vfat && rsync && wipefs),
{
    wimlib_imagex && mkfs_vfat && rsync && wipefs
}

/// The Windows ISO, chosen as the disk method chooses it.
pub fn source_iso(dirs: &Vec<Vec<(String, String, u64)>>) -> (r: Option<String>)
    ensures
        opt_view(r) == first_best_iso(dirs@.map_values(|d: Vec<(String, String, u64)>| d@)),
{
    find_iso(dirs)
}

// ------------------------------------------------------------ the build

/// The cached install.esd of an edition: `WORK_DIR/install-<index>.esd`.
pub open spec fn esd_path_of(edition_index: u32) -> Seq<char> {
    path_join(WORK_DIR@, "install-"@ + dec(edition_index as nat) + ".esd"@)
}

/// The commands of the build.
#[derive(Debug, Clone, Copy, PartialEq, Eq, Structural)]
pub enum Cmd {
    MountIso,
    ExportEsd,
    Wipe,
    Mkfs,
    MountStick,
    CopyTree,
    CopyEsd,
    CopyUnattend,
    Sync,
    UmountStick,
    UmountIso,
}

/// Where a build stands: what it asked for last.
#[derive(Debug, Clone, Copy, PartialEq, Eq, Structural)]
pub enum Stage {
    WorkDir,
    IsoDir,
    MountIso,
    ExportEsd,
    Wipe,
    Mkfs,
    StickDir,
    MountStick,
    CopyTree,
    CopyEsd,
    CopyUnattend,
    Marker,
    Sync,
    UmountStick,
    UmountIso,
    /// A step failed: the ISO is being unmounted before the failure is
    /// reported.
    Aborting,
    Finished,
}

/// What the build asks of its driver next.
#[derive(Debug)]
pub enum BuildAction {
    /// Create the directory (and its parents).
    MakeDir(String),
    /// Run the command (see [`command_for`]) with low risk.
    Run(Cmd),
    /// Run the command as a destructive operation on the stick, under the
    /// operation id, through every guard of the executor.
    RunDestructive(Cmd, String),
    /// Write this text to this file.
    WriteFile(String, String),
    /// The build is over.
    Finish(Result<BuildReport, SysforgeError>),
}

/// What the driver hands back after an action.
#[derive(Debug)]
pub enum BuildEvent {
    /// The directory or file was written.
    Done,
    /// The action could not be carried out.
    Failed(SysforgeError),
    /// The command ran with this result.
    Ran(ExecResult),
}

/// The outcome of a successful build.
#[derive(Debug, Clone)]
pub struct BuildReport {
    pub device: String,
    pub edition_index: u32,
    pub edition: String,
    pub esd: String,
    pub autounattend: bool,
    pub ready: bool,
}

/// A build in progress.
#[derive(Debug)]
pub struct BuildState {
    pub stage: Stage,
    /// The stick (its device path).
    pub device: String,
    pub edition_index: u32,
    pub edition_name: String,
    /// The Windows ISO.
    pub iso: String,
    /// The cached install.esd.
    pub esd_path: String,
    /// The cached install.esd already existed (no export needed).
    pub esd_cached: bool,
    /// autounattend.xml to copy to the root, when given and present.
    pub unattend: Option<String>,
    pub copy: Option<Result<ExecResult, SysforgeError>>,
    pub esd: Option<Result<ExecResult, SysforgeError>>,
    pub unattend_copied: bool,
    /// The failure reported once the ISO is unmounted.
    pub pending: Option<SysforgeError>,
}

/// `mount -o loop,ro -t udf <iso> ISO_MOUNT`: the ISO, read-only.
pub fn mount_iso_spec(iso: &str) -> (spec: CommandSpec)
    ensures
        spec.program@ == "mount"@,
        arg_views(spec.args@) == seq!["-o"@, "loop,ro"@, "-t"@, "udf"@, iso@, ISO_MOUNT@],
        spec.timeout_secs == 60,
{
    let s1 = CommandSpec::new("mount").arg("-o").arg("loop,ro");
    let s2 = s1.arg("-t").arg("udf");
    let s3 = s2.arg(iso).arg(ISO_MOUNT).timeout(60);
    assert(arg_views(s3.args@) =~= seq!["-o"@, "loop,ro"@, "-t"@, "udf"@, iso@, ISO_MOUNT@]);
    s3
}

/// The command a [`Cmd`] stands for in a build.
pub fn command_for(cmd: Cmd, st: &BuildState) -> (spec: CommandSpec)
    ensures
        match cmd {
            Cmd::MountIso => spec.program@ == "mount"@ && arg_views(spec.args@) == seq!["-o"@, "loop,ro"@, "-t"@, "udf"@, st.iso@, ISO_MOUNT@] && spec.timeout_secs == 60,
            Cmd::ExportEsd => spec.program@ == "wimlib-imagex"@ && arg_views(spec.args@) == seq!["export"@, ISO_MOUNT@ + "/sources/install.wim"@, dec(st.edition_index as nat), st.esd_path@, "--compress=LZMS"@, "--solid"@]
                && crate::executor::env_map(spec.env@) == Map::<Seq<char>, Seq<char>>::empty().insert("WIMLIB_IMAGEX_USE_UTF8"@, "1"@)
                && spec.timeout_secs == 7200,
            Cmd::Wipe => spec.program@ == "wipefs"@ && arg_views(spec.args@) == seq!["--all"@, st.device@] && spec.timeout_secs == 60,
            Cmd::Mkfs => spec.program@ == "mkfs.vfat"@ && arg_views(spec.args@) == seq!["-F"@, "32"@, "-n"@, "SYSFORGE"@, st.device@] && spec.timeout_secs == 120,
            Cmd::MountStick => spec.program@ == "mount"@ && arg_views(spec.args@) == seq![st.device@, STICK_MOUNT@] && spec.timeout_secs == 30,
            Cmd::CopyTree => spec.program@ == "rsync"@ && arg_views(spec.args@) == seq!["-a"@, "--exclude=/sources/install.wim"@, "--info=progress2"@, ISO_MOUNT@ + "/"@, STICK_MOUNT@ + "/"@] && spec.timeout_secs == 21600,
            Cmd::CopyEsd => spec.program@ == "rsync"@ && arg_views(spec.args@) == seq!["-a"@, st.esd_path@, STICK_MOUNT@ + "/sources/install.esd"@] && spec.timeout_secs == 1800,
            Cmd::CopyUnattend => spec.program@ == "cp"@ && arg_views(spec.args@) == seq![match st.unattend { Some(u) => u@, None => Seq::empty() }, STICK_MOUNT@ + "/autounattend.xml"@] && spec.timeout_secs == 30,
            Cmd::Sync => spec.program@ == "sync"@ && spec.args@.len() == 0 && spec.timeout_secs == 600,
            Cmd::UmountStick => spec.program@ == "umount"@ && arg_views(spec.args@) == seq![STICK_MOUNT@] && spec.timeout_secs == 30,
            Cmd::UmountIso => spec.program@ == "umount"@ && arg_views(spec.args@) == seq![ISO_MOUNT@] && spec.timeout_secs == 30,
        },
{
    match cmd {
        Cmd::MountIso => {
            let s = mount_iso_spec(st.iso.as_str());
            assert(arg_views(s.args@) == seq!["-o"@, "loop,ro"@, "-t"@, "udf"@, st.iso@, ISO_MOUNT@]);
            s
        },
        Cmd::ExportEsd => {
            let mut wim = String::from_str(ISO_MOUNT);
            push_str(&mut wim, "/sources/install.wim");
            let mut idx = String::new();
            push_dec(&mut idx, st.edition_index as u64);
            let s = CommandSpec::new("wimlib-imagex").arg("export").arg(wim.as_str()).arg(idx.as_str()).arg(st.esd_path.as_str()).arg("--compress=LZMS").arg("--solid").env("WIMLIB_IMAGEX_USE_UTF8", "1").timeout(7200);
            assert(arg_views(s.args@) =~= seq!["export"@, ISO_MOUNT@ + "/sources/install.wim"@, dec(st.edition_index as nat), st.esd_path@, "--compress=LZMS"@, "--solid"@]);
            s
        },
        Cmd::Wipe => {
            let s = CommandSpec::new("wipefs").arg("--all").arg(st.device.as_str()).timeout(60);
            assert(arg_views(s.args@) =~= seq!["--all"@, st.device@]);
            s
        },
        Cmd::Mkfs => {
            let s = CommandSpec::new("mkfs.vfat").arg("-F").arg("32").arg("-n").arg("SYSFORGE").arg(st.device.as_str()).timeout(120);
            assert(arg_views(s.args@) =~= seq!["-F"@, "32"@, "-n"@, "SYSFORGE"@, st.device@]);
            s
        },
        Cmd::MountStick => {
            let s = CommandSpec::new("mount").arg(st.device.as_str()).arg(STICK_MOUNT).timeout(30);
            assert(arg_views(s.args@) =~= seq![st.device@, STICK_MOUNT@]);
            s
        },
        Cmd::CopyTree => {
            let mut from = String::from_str(ISO_MOUNT);
            push_str(&mut from, "/");
            let mut to = String::from_str(STICK_MOUNT);
            push_str(&mut to, "/");
            let s = CommandSpec::new("rsync").arg("-a").arg("--exclude=/sources/install.wim").arg("--info=progress2").arg(from.as_str()).arg(to.as_str()).timeout(21600);
            assert(arg_views(s.args@) =~= seq!["-a"@, "--exclude=/sources/install.wim"@, "--info=progress2"@, ISO_MOUNT@ + "/"@, STICK_MOUNT@ + "/"@]);
            s
        },
        Cmd::CopyEsd => {
            let mut to = String::from_str(STICK_MOUNT);
            push_str(&mut to, "/sources/install.esd");
            let s = CommandSpec::new("rsync").arg("-a").arg(st.esd_path.as_str()).arg(to.as_str()).timeout(1800);
            assert(arg_views(s.args@) =~= seq!["-a"@, st.esd_path@, STICK_MOUNT@ + "/sources/install.esd"@]);
            s
        },
        Cmd::CopyUnattend => {
            let src = match &st.unattend {
                Some(u) => clone_string(u),
                None => String::new(),
            };
            let mut to = String::from_str(STICK_MOUNT);
            push_str(&mut to, "/autounattend.xml");
            let s = CommandSpec::new("cp").arg(src.as_str()).arg(to.as_str()).timeout(30);
            assert(arg_views(s.args@) =~= seq![match st.unattend { Some(u) => u@, None => Seq::empty() }, STICK_MOUNT@ + "/autounattend.xml"@]);
            s
        },
        Cmd::Sync => CommandSpec::new("sync").timeout(600),
        Cmd::UmountStick => {
            let s = CommandSpec::new("umount").arg(STICK_MOUNT).timeout(30);
            assert(arg_views(s.args@) =~= seq![STICK_MOUNT@]);
            s
        },
        Cmd::UmountIso => {
            let s = CommandSpec::new("umount").arg(ISO_MOUNT).timeout(30);
            assert(arg_views(s.args@) =~= seq![ISO_MOUNT@]);
            s
        },
    }
}

/// Starts the build on the stick `identity`. `revalidation` is the fresh
/// check of its identity (any failure refuses with `SF-DISK-020`), `plan`
/// the space plan for it (its failure is the build's), `iso` the Windows
/// ISO, `esd_exists` whether the cached install.esd is there, and
/// `autounattend` the answer file to put at the root when it exists.
pub fn build_begin(
    identity: &DiskIdentity,
    revalidation: Result<(), SysforgeError>,
    plan: Result<SmallUsbPlan, SysforgeError>,
    iso: &str,
    esd_exists: bool,
    autounattend: Option<(String, bool)>,
) -> (r: Result<(BuildState, BuildAction), SysforgeError>)
    ensures
        revalidation is Err ==> (r matches Err(e) && e.code@ == error_code(ErrorDomain::Disk, 20)
            && e.message@ == "Identidade do pendrive mudou — abortando por segurança"@),
        revalidation is Ok ==> match plan {
            Err(e) => r == Err::<(BuildState, BuildAction), SysforgeError>(e),
            Ok(p) => if !p.fits {
                r matches Err(e) && e.code@ == error_code(ErrorDomain::Disk, 21)
                    && e.message@ == "Pendrive sem espaço para a mídia otimizada"@
                    && e.technical@ == "pendrive "@ + dec(p.stick_size_bytes as nat) + " bytes < necessário ~4,1 GB"@
            } else {
                r matches Ok((st, a)) && st.stage == Stage::WorkDir && (a matches BuildAction::MakeDir(d) && d@ == WORK_DIR@)
                    && st.device@ == identity.path@ && st.edition_index == p.edition_index
                    && st.edition_name@ == p.edition_name@ && st.iso@ == iso@
                    && st.esd_path@ == esd_path_of(p.edition_index) && st.esd_cached == esd_exists
                    && opt_view(st.unattend) == (match autounattend {
                        Some((u, true)) => Some(u@),
                        _ => None,
                    })
                    && st.copy is None && st.esd is None && !st.unattend_copied && st.pending is None
            },
        },
{
    if revalidation.is_err() {
        return Err(SysforgeError::new(ErrorDomain::Disk, 20, "Identidade do pendrive mudou — abortando por segurança"));
    }
    let p = match plan {
        Ok(p) => p,
        Err(e) => {
            return Err(e);
        },
    };
    if !p.fits {
        let mut tech = String::from_str("pendrive ");
        push_dec(&mut tech, p.stick_size_bytes);
        push_str(&mut tech, " bytes < necessário ~4,1 GB");
        return Err(SysforgeError::new(ErrorDomain::Disk, 21, "Pendrive sem espaço para a mídia otimizada").with_technical(tech.as_str()));
    }
    let mut name = String::from_str("install-");
    push_dec(&mut name, p.edition_index as u64);
    push_str(&mut name, ".esd");
    let esd_path = join_path(WORK_DIR, name.as_str());
    let unattend = match autounattend {
        Some((u, true)) => Some(u),
        _ => None,
    };
    let st = BuildState {
        stage: Stage::WorkDir,
        device: clone_string(&identity.path),
        edition_index: p.edition_index,
        edition_name: clone_string(&p.edition_name),
        iso: String::from_str(iso),
        esd_path,
        esd_cached: esd_exists,
        unattend,
        copy: None,
        esd: None,
        unattend_copied: false,
        pending: None,
    };
    Ok((st, BuildAction::MakeDir(String::from_str(WORK_DIR))))
}

/// The event fits the action the stage stands for.
pub open spec fn event_fits(stage: Stage, ev: BuildEvent) -> bool {
    match stage {
        Stage::WorkDir | Stage::IsoDir | Stage::StickDir | Stage::Marker => !(ev is Ran),
        Stage::Finished => false,
        _ => !(ev is Done),
    }
}

/// `format!("{:?}", e)` of an error.
pub open spec fn error_debug(e: SysforgeError) -> Seq<char> {
    "SysforgeError { code: "@ + debug_text(e.code@) + ", message: "@ + debug_text(e.message@) + ", technical: "@
        + debug_text(e.technical@) + ", recommendation: "@ + debug_text(e.recommendation@) + " }"@
}

/// `format!("{:?}", r.map(|x| x.exit_code))` of a run outcome.
pub open spec fn outcome_debug(o: Option<Result<ExecResult, SysforgeError>>) -> Seq<char> {
    match o {
        Some(Ok(r)) => "Ok("@ + exit_debug(r.exit_code) + ")"@,
        Some(Err(e)) => "Err("@ + error_debug(e) + ")"@,
        None => "Ok(None)"@,
    }
}

fn push_outcome_debug(s: &mut String, o: &Option<Result<ExecResult, SysforgeError>>)
    ensures
        final(s)@ == old(s)@ + outcome_debug(*o),
{
    match o {
        Some(Ok(r)) => {
            push_str(s, "Ok(");
            push_exit_debug(s, r.exit_code);
            push_str(s, ")");
        },
        Some(Err(e)) => {
            push_str(s, "Err(");
            push_str(s, "SysforgeError { code: ");
            push_str(s, debug_of(e.code.as_str()).as_str());
            push_str(s, ", message: ");
            push_str(s, debug_of(e.message.as_str()).as_str());
            push_str(s, ", technical: ");
            push_str(s, debug_of(e.technical.as_str()).as_str());
            push_str(s, ", recommendation: ");
            push_str(s, debug_of(e.recommendation.as_str()).as_str());
            push_str(s, " }");
            push_str(s, ")");
            proof {
                assert(final(s)@ =~= old(s)@ + outcome_debug(*o));
            }
        },
        None => {
            push_str(s, "Ok(None)");
        },
    }
}

/// A run that finished with status 0.
pub open spec fn ran_ok(o: Option<Result<ExecResult, SysforgeError>>) -> bool {
    o matches Some(Ok(r)) && r.exit_code == Some(0i32)
}

fn run_ok(o: &Option<Result<ExecResult, SysforgeError>>) -> (b: bool)
    ensures
        b == ran_ok(*o),
{
    match o {
        Some(Ok(r)) => r.success(),
        _ => false,
    }
}

/// The failure of a command in the build (its captured output, no
/// arguments shown).
fn step_failed(program: &str, r: &ExecResult) -> (e: SysforgeError)
    ensures
        e.code@ == error_code(ErrorDomain::Io, 1),
        e.message@ == "O comando `"@ + program@ + "` falhou"@,
{
    let none: Vec<String> = Vec::new();
    SysforgeError::command_failed(program, none.as_slice(), r.exit_code, r.stderr.as_str())
}

/// The next step of a build after the driver's event. A failure before
/// the ISO is mounted ends the build at once; a failure after it first
/// unmounts the ISO (silently) and then reports. The copies' outcomes
/// decide the end: both must finish with status 0.
pub fn build_next(st: BuildState, ev: BuildEvent) -> (r: (BuildState, BuildAction))
    requires
        event_fits(st.stage, ev),
    ensures
        // failures of the driver before any cleanup is owed
        (st.stage == Stage::WorkDir || st.stage == Stage::IsoDir || st.stage == Stage::MountIso
            || st.stage == Stage::ExportEsd || st.stage == Stage::Wipe || st.stage == Stage::Mkfs
            || st.stage == Stage::StickDir || st.stage == Stage::MountStick) && ev is Failed ==> (r.0.stage
            == Stage::Finished && (r.1 matches BuildAction::Finish(Err(e)) && ev == BuildEvent::Failed(e))),
        st.stage == Stage::WorkDir && ev is Done ==> (r.0.stage == Stage::IsoDir && (r.1 matches BuildAction::MakeDir(d) && d@ == ISO_MOUNT@)),
        st.stage == Stage::IsoDir && ev is Done ==> (r.0.stage == Stage::MountIso && r.1 == BuildAction::Run(Cmd::MountIso)),
        st.stage == Stage::MountIso ==> (ev matches BuildEvent::Ran(x) ==> if x.exit_code != Some(0i32) {
            r.0.stage == Stage::Finished && (r.1 matches BuildAction::Finish(Err(e)) && e.message@ == "O comando `"@ + "mount"@ + "` falhou"@)
        } else if st.esd_cached {
            r.0.stage == Stage::Wipe && (r.1 matches BuildAction::RunDestructive(Cmd::Wipe, op) && op@ == "small-usb-wipe"@)
        } else {
            r.0.stage == Stage::ExportEsd && r.1 == BuildAction::Run(Cmd::ExportEsd)
        }),
        st.stage == Stage::ExportEsd ==> (ev matches BuildEvent::Ran(x) ==> if x.exit_code != Some(0i32) {
            r.0.stage == Stage::Aborting && r.1 == BuildAction::Run(Cmd::UmountIso)
                && (r.0.pending matches Some(e) && e.message@ == "O comando `"@ + "wimlib-imagex export"@ + "` falhou"@)
        } else {
            r.0.stage == Stage::Wipe && (r.1 matches BuildAction::RunDestructive(Cmd::Wipe, op) && op@ == "small-usb-wipe"@)
        }),
        st.stage == Stage::Wipe ==> (ev matches BuildEvent::Ran(x) ==> if x.simulated {
            r.0.stage == Stage::Aborting && r.1 == BuildAction::Run(Cmd::UmountIso)
                && (r.0.pending matches Some(e) && e.code@ == error_code(ErrorDomain::State, 12)
                && e.message@ == "wipe em modo DryRun — recusado"@)
        } else {
            r.0.stage == Stage::Mkfs && (r.1 matches BuildAction::RunDestructive(Cmd::Mkfs, op) && op@ == "small-usb-mkfs"@)
        }),
        st.stage == Stage::Mkfs ==> (ev matches BuildEvent::Ran(x) ==> if x.exit_code != Some(0i32) {
            r.0.stage == Stage::Aborting && r.1 == BuildAction::Run(Cmd::UmountIso)
                && (r.0.pending matches Some(e) && e.message@ == "O comando `"@ + "mkfs.vfat"@ + "` falhou"@)
        } else {
            r.0.stage == Stage::StickDir && (r.1 matches BuildAction::MakeDir(d) && d@ == STICK_MOUNT@)
        }),
        st.stage == Stage::StickDir && ev is Done ==> (r.0.stage == Stage::MountStick && r.1 == BuildAction::Run(Cmd::MountStick)),
        st.stage == Stage::MountStick ==> (ev matches BuildEvent::Ran(x) ==> if x.exit_code != Some(0i32) {
            r.0.stage == Stage::Aborting && r.1 == BuildAction::Run(Cmd::UmountIso)
                && (r.0.pending matches Some(e) && e.message@ == "O comando `"@ + "mount"@ + "` falhou"@)
        } else {
            r.0.stage == Stage::CopyTree && r.1 == BuildAction::Run(Cmd::CopyTree)
        }),
        st.stage == Stage::CopyTree ==> (r.0.stage == Stage::CopyEsd && r.1 == BuildAction::Run(Cmd::CopyEsd)
            && r.0.copy == Some(match ev {
                BuildEvent::Ran(x) => Ok::<ExecResult, SysforgeError>(x),
                BuildEvent::Failed(e) => Err::<ExecResult, SysforgeError>(e),
                BuildEvent::Done => Err::<ExecResult, SysforgeError>(r.0.copy->0->Err_0),
            })),
        st.stage == Stage::CopyEsd ==> (r.0.esd == Some(match ev {
                BuildEvent::Ran(x) => Ok::<ExecResult, SysforgeError>(x),
                BuildEvent::Failed(e) => Err::<ExecResult, SysforgeError>(e),
                BuildEvent::Done => Err::<ExecResult, SysforgeError>(r.0.esd->0->Err_0),
            }) && if st.unattend is Some {
                r.0.stage == Stage::CopyUnattend && r.1 == BuildAction::Run(Cmd::CopyUnattend)
            } else {
                r.0.stage == Stage::Marker && (r.1 matches BuildAction::WriteFile(f, t) && f@ == STICK_MOUNT@ + "/"@ + MARKER@
                    && t@ == "edition="@ + dec(st.edition_index as nat) + " built_by=sysforge"@)
            }),
        st.stage == Stage::CopyUnattend ==> (r.0.stage == Stage::Marker && r.0.unattend_copied == (ev matches BuildEvent::Ran(x) && x.exit_code == Some(0i32))
            && (r.1 matches BuildAction::WriteFile(f, t) && f@ == STICK_MOUNT@ + "/"@ + MARKER@
            && t@ == "edition="@ + dec(st.edition_index as nat) + " built_by=sysforge"@)),
        st.stage == Stage::Marker ==> (r.0.stage == Stage::Sync && r.1 == BuildAction::Run(Cmd::Sync)),
        st.stage == Stage::Sync ==> (r.0.stage == Stage::UmountStick && r.1 == BuildAction::Run(Cmd::UmountStick)),
        st.stage == Stage::UmountStick ==> (r.0.stage == Stage::UmountIso && r.1 == BuildAction::Run(Cmd::UmountIso)),
        st.stage == Stage::UmountIso ==> (r.0.stage == Stage::Finished && if ran_ok(st.copy) && ran_ok(st.esd) {
            r.1 matches BuildAction::Finish(Ok(rep)) && rep.device@ == st.device@ && rep.edition_index == st.edition_index
                && rep.edition@ == st.edition_name@ && rep.esd@ == "sources/install.esd"@ && rep.autounattend == st.unattend_copied && rep.ready
        } else {
            r.1 matches BuildAction::Finish(Err(e)) && e.code@ == error_code(ErrorDomain::Io, 50)
                && e.message@ == "Falha ao copiar a mídia para o pendrive"@
                && e.technical@ == "copy="@ + outcome_debug(st.copy) + " esd="@ + outcome_debug(st.esd)
        }),
        st.stage == Stage::Aborting ==> (r.0.stage == Stage::Finished && match st.pending {
            Some(e) => r.1 == BuildAction::Finish(Err(e)),
            None => r.1 matches BuildAction::Finish(Err(_)),
        }),
        r.0.device == st.device && r.0.edition_index == st.edition_index && r.0.esd_path == st.esd_path
            && r.0.iso == st.iso && r.0.unattend == st.unattend && r.0.esd_cached == st.esd_cached,
{
    let mut st = st;
    let stage = st.stage;
    match stage {
        Stage::WorkDir => match ev {
            BuildEvent::Failed(e) => {
                st.stage = Stage::Finished;
                (st, BuildAction::Finish(Err(e)))
            },
            _ => {
                st.stage = Stage::IsoDir;
                (st, BuildAction::MakeDir(String::from_str(ISO_MOUNT)))
            },
        },
        Stage::IsoDir => match ev {
            BuildEvent::Failed(e) => {
                st.stage = Stage::Finished;
                (st, BuildAction::Finish(Err(e)))
            },
            _ => {
                st.stage = Stage::MountIso;
                (st, BuildAction::Run(Cmd::MountIso))
            },
        },
        Stage::MountIso => match ev {
            BuildEvent::Ran(x) => if !x.success() {
                st.stage = Stage::Finished;
                (st, BuildAction::Finish(Err(step_failed("mount", &x))))
            } else if st.esd_cached {
                st.stage = Stage::Wipe;
                (st, BuildAction::RunDestructive(Cmd::Wipe, String::from_str("small-usb-wipe")))
            } else {
                st.stage = Stage::ExportEsd;
                (st, BuildAction::Run(Cmd::ExportEsd))
            },
            BuildEvent::Failed(e) => {
                st.stage = Stage::Finished;
                (st, BuildAction::Finish(Err(e)))
            },
            BuildEvent::Done => {
                st.stage = Stage::Finished;
                (st, BuildAction::Finish(Err(SysforgeError::new(ErrorDomain::Io, 1, "O comando `mount` falhou"))))
            },
        },
        Stage::ExportEsd => match ev {
            BuildEvent::Ran(x) => if !x.success() {
                st.stage = Stage::Aborting;
                st.pending = Some(step_failed("wimlib-imagex export", &x));
                (st, BuildAction::Run(Cmd::UmountIso))
            } else {
                st.stage = Stage::Wipe;
                (st, BuildAction::RunDestructive(Cmd::Wipe, String::from_str("small-usb-wipe")))
            },
            BuildEvent::Failed(e) => {
                st.stage = Stage::Finished;
                (st, BuildAction::Finish(Err(e)))
            },
            BuildEvent::Done => {
                st.stage = Stage::Finished;
                (st, BuildAction::Finish(Err(SysforgeError::new(ErrorDomain::Io, 1, "O comando `wimlib-imagex export` falhou"))))
            },
        },
        Stage::Wipe => match ev {
            BuildEvent::Ran(x) => if x.simulated {
                st.stage = Stage::Aborting;
                st.pending = Some(SysforgeError::new(ErrorDomain::State, 12, "wipe em modo DryRun — recusado"));
                (st, BuildAction::Run(Cmd::UmountIso))
            } else {
                st.stage = Stage::Mkfs;
                (st, BuildAction::RunDestructive(Cmd::Mkfs, String::from_str("small-usb-mkfs")))
            },
            BuildEvent::Failed(e) => {
                st.stage = Stage::Finished;
                (st, BuildAction::Finish(Err(e)))
            },
            BuildEvent::Done => {
                st.stage = Stage::Finished;
                (st, BuildAction::Finish(Err(SysforgeError::new(ErrorDomain::State, 12, "wipe em modo DryRun — recusado"))))
            },
        },
        Stage::Mkfs => match ev {
            BuildEvent::Ran(x) => if !x.success() {
                st.stage = Stage::Aborting;
                st.pending = Some(step_failed("mkfs.vfat", &x));
                (st, BuildAction::Run(Cmd::UmountIso))
            } else {
                st.stage = Stage::StickDir;
                (st, BuildAction::MakeDir(String::from_str(STICK_MOUNT)))
            },
            BuildEvent::Failed(e) => {
                st.stage = Stage::Finished;
                (st, BuildAction::Finish(Err(e)))
            },
            BuildEvent::Done => {
                st.stage = Stage::Finished;
                (st, BuildAction::Finish(Err(SysforgeError::new(ErrorDomain::Io, 1, "O comando `mkfs.vfat` falhou"))))
            },
        },
        Stage::StickDir => match ev {
            BuildEvent::Failed(e) => {
                st.stage = Stage::Finished;
                (st, BuildAction::Finish(Err(e)))
            },
            _ => {
                st.stage = Stage::MountStick;
                (st, BuildAction::Run(Cmd::MountStick))
            },
        },
        Stage::MountStick => match ev {
            BuildEvent::Ran(x) => if !x.success() {
                st.stage = Stage::Aborting;
                st.pending = Some(step_failed("mount", &x));
                (st, BuildAction::Run(Cmd::UmountIso))
            } else {
                st.stage = Stage::CopyTree;
                (st, BuildAction::Run(Cmd::CopyTree))
            },
            BuildEvent::Failed(e) => {
                st.stage = Stage::Finished;
                (st, BuildAction::Finish(Err(e)))
            },
            BuildEvent::Done => {
                st.stage = Stage::Finished;
                (st, BuildAction::Finish(Err(SysforgeError::new(ErrorDomain::Io, 1, "O comando `mount` falhou"))))
            },
        },
        Stage::CopyTree => {
            st.copy = Some(match ev {
                BuildEvent::Ran(x) => Ok(x),
                BuildEvent::Failed(e) => Err(e),
                BuildEvent::Done => Err(SysforgeError::new(ErrorDomain::Io, 50, "Falha ao copiar a mídia para o pendrive")),
            });
            st.stage = Stage::CopyEsd;
            (st, BuildAction::Run(Cmd::CopyEsd))
        },
        Stage::CopyEsd => {
            st.esd = Some(match ev {
                BuildEvent::Ran(x) => Ok(x),
                BuildEvent::Failed(e) => Err(e),
                BuildEvent::Done => Err(SysforgeError::new(ErrorDomain::Io, 50, "Falha ao copiar a mídia para o pendrive")),
            });
            if st.unattend.is_some() {
                st.stage = Stage::CopyUnattend;
                (st, BuildAction::Run(Cmd::CopyUnattend))
            } else {
                st.stage = Stage::Marker;
                let a = marker_action(st.edition_index);
                (st, a)
            }
        },
        Stage::CopyUnattend => {
            st.unattend_copied = match ev {
                BuildEvent::Ran(x) => x.success(),
                _ => false,
            };
            st.stage = Stage::Marker;
            let a = marker_action(st.edition_index);
            (st, a)
        },
        Stage::Marker => {
            st.stage = Stage::Sync;
            (st, BuildAction::Run(Cmd::Sync))
        },
        Stage::Sync => {
            st.stage = Stage::UmountStick;
            (st, BuildAction::Run(Cmd::UmountStick))
        },
        Stage::UmountStick => {
            st.stage = Stage::UmountIso;
            (st, BuildAction::Run(Cmd::UmountIso))
        },
        Stage::UmountIso => {
            st.stage = Stage::Finished;
            if run_ok(&st.copy) && run_ok(&st.esd) {
                let rep = BuildReport {
                    device: clone_string(&st.device),
                    edition_index: st.edition_index,
                    edition: clone_string(&st.edition_name),
                    esd: String::from_str("sources/install.esd"),
                    autounattend: st.unattend_copied,
                    ready: true,
                };
                (st, BuildAction::Finish(Ok(rep)))
            } else {
                let mut tech = String::from_str("copy=");
                push_outcome_debug(&mut tech, &st.copy);
                push_str(&mut tech, " esd=");
                push_outcome_debug(&mut tech, &st.esd);
                let e = SysforgeError::new(ErrorDomain::Io, 50, "Falha ao copiar a mídia para o pendrive").with_technical(tech.as_str());
                (st, BuildAction::Finish(Err(e)))
            }
        },
        Stage::Aborting => {
            st.stage = Stage::Finished;
            let e = match st.pending.take() {
                Some(e) => e,
                None => SysforgeError::new(ErrorDomain::Io, 50, "Falha ao copiar a mídia para o pendrive"),
            };
            (st, BuildAction::Finish(Err(e)))
        },
        Stage::Finished => {
            (st, BuildAction::Finish(Err(SysforgeError::new(ErrorDomain::Io, 50, "Falha ao copiar a mídia para o pendrive"))))
        },
    }
}

fn marker_action(edition_index: u32) -> (a: BuildAction)
    ensures
        a matches BuildAction::WriteFile(f, t) && f@ == STICK_MOUNT@ + "/"@ + MARKER@
            && t@ == "edition="@ + dec(edition_index as nat) + " built_by=sysforge"@,
{
    let mut f = String::from_str(STICK_MOUNT);
    push_str(&mut f, "/");
    push_str(&mut f, MARKER);
    let mut t = String::from_str("edition=");
    push_dec(&mut t, edition_index as u64);
    push_str(&mut t, " built_by=sysforge");
    BuildAction::WriteFile(f, t)
}

} // verus!
