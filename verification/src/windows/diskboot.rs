//! The "disk" method: install Windows WITHOUT a stick. The ISO stays where
//! it is; GRUB (which already boots the machine) gets an entry that loads
//! the Windows installer straight from the ISO into RAM with `wimboot`,
//! and `grub-reboot` points the next boot at it. No partition is touched.
//!
//! Honest prerequisites, checked before anything is promised: Secure Boot
//! off (wimboot is unsigned), GRUB2 owning the boot, enough free RAM (the
//! whole boot.wim goes to memory), and an ISO larger than 3 GiB on disk.

use vstd::prelude::*;

use crate::error::{error_code, ErrorDomain, SysforgeError, exit_debug, push_exit_debug};
use crate::executor::{arg_views, CommandSpec, ExecResult};
use crate::text::{
    chars_of, clone_string, copy_range, dec, fold_contains, fold_contains_str, fold_ends_with, fold_ends_with_str,
    join_strings, join_with, lines, lines_of, opt_view, parse_u64, parse_u64_range, push_dec, push_str,
    starts_with, starts_with_chars, strip_prefix, trim, trim_chars, trim_end_matches, trim_end_matches_of,
    trim_string,
};

verus! {

/// Where wimboot lives on the system (GRUB reads it from here).
pub const WIMBOOT_PATH: &'static str = "/var/lib/sysforge/wimboot";
/// Dedicated GRUB entry file (its own file: reverting is trivial).
pub const GRUB_ENTRY_FILE: &'static str = "/etc/grub.d/40_sysforge";
/// Official origin of wimboot (iPXE project, BSD).
pub const WIMBOOT_URL: &'static str = "https://github.com/ipxe/wimboot/releases/latest/download/wimboot";
/// Windows 11 boot.wim (~700 MiB) + BCD + boot.sdi + margin, all in RAM.
pub const RAM_NEEDED_MB: u64 = 2500;
/// Title of the GRUB entry (`grub-reboot` selects it by name).
pub const GRUB_ENTRY_TITLE: &'static str = "SYSFORGE — Instalar Windows 11 (sem pendrive)";

pub const BLOCKER_ISO: &'static str = "ISO do Windows não encontrada em ~/Downloads (> 3 GiB, nome contendo 'win')";
pub const BLOCKER_SECURE_BOOT: &'static str = "Secure Boot LIGADO — desligue na BIOS (o wimboot não é assinado)";
pub const BLOCKER_GRUB: &'static str = "GRUB2 não encontrado como bootloader (método exige GRUB, padrão em Mint/Ubuntu)";

/// Readiness of the disk method (a real probe; nothing promised without
/// evidence).
#[derive(Debug, Clone)]
pub struct DiskBootReadiness {
    pub iso_path: Option<String>,
    pub secure_boot_off: bool,
    pub grub_present: bool,
    pub update_grub_present: bool,
    pub ram_available_mb: u64,
    pub ram_needed_mb: u64,
    pub ram_ok: bool,
    pub wimboot_present: bool,
    pub wimboot_needs_download: bool,
    pub ready: bool,
    pub blockers: Vec<String>,
}

// ------------------------------------------------------------ the ISO

/// An entry of a listing that can be the Windows ISO: name ending in
/// `.iso` and containing `win` (ASCII case ignored), larger than 3 GiB.
pub open spec fn iso_candidate(e: (String, String, u64)) -> bool {
    fold_ends_with(e.1@, ".iso"@) && fold_contains(e.1@, "win"@) && e.2 > 3221225472
}

/// The largest candidate of one directory (the first of equal sizes).
pub open spec fn best_iso(entries: Seq<(String, String, u64)>) -> Option<(u64, Seq<char>)>
    decreases entries.len(),
{
    if entries.len() == 0 {
        None
    } else {
        let b = best_iso(entries.drop_last());
        let e = entries.last();
        if iso_candidate(e) && (match b { Some((s, _)) => e.2 > s, None => true }) {
            Some((e.2, e.0@))
        } else {
            b
        }
    }
}

/// The ISO of the first directory (in order) that has one.
pub open spec fn first_best_iso(dirs: Seq<Seq<(String, String, u64)>>) -> Option<Seq<char>>
    decreases dirs.len(),
{
    if dirs.len() == 0 {
        None
    } else {
        match best_iso(dirs[0]) {
            Some((_, p)) => Some(p),
            None => first_best_iso(dirs.drop_first()),
        }
    }
}

fn best_iso_of(entries: &Vec<(String, String, u64)>) -> (r: Option<(u64, String)>)
    ensures
        match best_iso(entries@) {
            None => r is None,
            Some((s, p)) => r matches Some((rs, rp)) && rs == s && rp@ == p,
        },
{
    let mut best: Option<(u64, String)> = None;
    let mut i: usize = 0;
    while i < entries.len()
        invariant
            i <= entries.len(),
            match best_iso(entries@.take(i as int)) {
                None => best is None,
                Some((s, p)) => best matches Some((bs, bp)) && bs == s && bp@ == p,
            },
        decreases entries.len() - i,
    {
        proof {
            assert(entries@.take(i + 1).drop_last() =~= entries@.take(i as int));
            assert(entries@.take(i + 1).last() == entries@[i as int]);
        }
        let e = &entries[i];
        let cand = fold_ends_with_str(e.1.as_str(), ".iso") && fold_contains_str(e.1.as_str(), "win")
            && e.2 > 3221225472;
        let better = match &best {
            Some((s, _)) => e.2 > *s,
            None => true,
        };
        if cand && better {
            best = Some((e.2, clone_string(&e.0)));
        }
        i += 1;
    }
    proof {
        assert(entries@.take(entries.len() as int) =~= entries@);
    }
    best
}

/// The Windows ISO to use: the largest candidate of the first directory
/// that has one. `dirs` are the listings, in search order (~/Downloads,
/// then ~), each entry `(path, file name, size)`.
pub fn find_iso(dirs: &Vec<Vec<(String, String, u64)>>) -> (r: Option<String>)
    ensures
        opt_view(r) == first_best_iso(dirs@.map_values(|d: Vec<(String, String, u64)>| d@)),
{
    let ghost dv = dirs@.map_values(|d: Vec<(String, String, u64)>| d@);
    let mut i: usize = 0;
    proof {
        assert(dv.skip(0) =~= dv);
    }
    while i < dirs.len()
        invariant
            i <= dirs.len(),
            dv == dirs@.map_values(|d: Vec<(String, String, u64)>| d@),
            first_best_iso(dv) == first_best_iso(dv.skip(i as int)),
        decreases dirs.len() - i,
    {
        proof {
            assert(dv.skip(i as int).drop_first() =~= dv.skip(i + 1));
            assert(dv.skip(i as int)[0] == dirs@[i as int]@);
        }
        match best_iso_of(&dirs[i]) {
            Some((_, p)) => {
                return Some(p);
            },
            None => {},
        }
        i += 1;
    }
    None
}

// ------------------------------------------------------------ readiness

/// Secure Boot is known to be off.
pub fn secure_boot_off(enabled: Option<bool>) -> (b: bool)
    ensures
        b == (enabled == Some(false)),
{
    match enabled {
        Some(on) => !on,
        None => false,
    }
}

/// The value after `MemAvailable:` in the first line that has it.
pub open spec fn mem_available_rest(ls: Seq<Seq<char>>) -> Option<Seq<char>>
    decreases ls.len(),
{
    if ls.len() == 0 {
        None
    } else {
        match strip_prefix(ls[0], "MemAvailable:"@) {
            Some(rest) => Some(rest),
            None => mem_available_rest(ls.drop_first()),
        }
    }
}

/// MemAvailable of `/proc/meminfo`, in MiB (0 when missing or unreadable).
pub open spec fn mem_available(meminfo: Seq<char>) -> u64 {
    match mem_available_rest(lines(meminfo)) {
        Some(rest) => match parse_u64(trim_end_matches(trim(rest), " kB"@)) {
            Some(v) => v / 1024,
            None => 0,
        },
        None => 0,
    }
}

/// Exec form of [`mem_available`].
pub fn mem_available_mb(meminfo: &str) -> (r: u64)
    ensures
        r == mem_available(meminfo@),
{
    let s = chars_of(meminfo);
    let ls = lines_of(s.as_slice());
    let key = chars_of("MemAvailable:");
    let ghost lv = lines(meminfo@);
    let mut i: usize = 0;
    proof {
        assert(lv.skip(0) =~= lv);
    }
    while i < ls.len()
        invariant
            i <= ls.len(),
            ls@.len() == lv.len(),
            lv == lines(meminfo@),
            key@ == "MemAvailable:"@,
            forall|k: int| 0 <= k < ls@.len() ==> #[trigger] ls@[k]@ == lv[k],
            mem_available_rest(lv) == mem_available_rest(lv.skip(i as int)),
        decreases ls.len() - i,
    {
        proof {
            assert(lv.skip(i as int).drop_first() =~= lv.skip(i + 1));
            assert(lv.skip(i as int)[0] == ls@[i as int]@);
        }
        let line = &ls[i];
        if starts_with_chars(line.as_slice(), key.as_slice()) {
            let rest = copy_range(line.as_slice(), key.len(), line.len());
            proof {
                assert(rest@ =~= line@.skip(key@.len() as int));
            }
            let t = trim_chars(rest.as_slice());
            let u = trim_end_matches_of(t.as_slice(), chars_of(" kB").as_slice());
            let v = parse_u64_range(u.as_slice(), 0, u.len());
            proof {
                assert(u@.subrange(0, u@.len() as int) =~= u@);
            }
            return match v {
                Some(x) => x / 1024,
                None => 0,
            };
        }
        i += 1;
    }
    0
}

/// The blockers of the disk method, in order.
pub open spec fn blockers_of(iso: bool, sb_off: bool, grub: bool, ram: u64) -> Seq<Seq<char>> {
    (if iso { seq![] } else { seq![BLOCKER_ISO@] })
        + (if sb_off { seq![] } else { seq![BLOCKER_SECURE_BOOT@] })
        + (if grub { seq![] } else { seq![BLOCKER_GRUB@] })
        + (if ram >= RAM_NEEDED_MB { seq![] } else {
            seq!["RAM livre "@ + dec(ram as nat) + " MiB < "@ + dec(RAM_NEEDED_MB as nat)
                + " MiB — o instalador carrega inteiro na memória"@]
        })
}

/// Readiness from the probes: the ISO found (`iso`), Secure Boot off,
/// GRUB present, free RAM in MiB, wimboot already installed.
pub fn readiness(iso: Option<String>, sb_off: bool, grub: bool, ram: u64, wimboot_present: bool) -> (r: DiskBootReadiness)
    ensures
        opt_view(r.iso_path) == opt_view(iso),
        r.secure_boot_off == sb_off,
        r.grub_present == grub,
        r.update_grub_present,
        r.ram_available_mb == ram,
        r.ram_needed_mb == RAM_NEEDED_MB,
        r.ram_ok == (ram >= RAM_NEEDED_MB),
        r.wimboot_present == wimboot_present,
        r.wimboot_needs_download == !wimboot_present,
        r.ready == (iso is Some && sb_off && grub && ram >= RAM_NEEDED_MB),
        r.blockers@.map_values(|b: String| b@) == blockers_of(iso is Some, sb_off, grub, ram),
        r.ready <==> r.blockers@.len() == 0,
{
    let ram_ok = ram >= RAM_NEEDED_MB;
    let mut blockers: Vec<String> = Vec::new();
    let has_iso = match &iso {
        Some(_) => true,
        None => false,
    };
    if !has_iso {
        blockers.push(String::from_str(BLOCKER_ISO));
    }
    if !sb_off {
        blockers.push(String::from_str(BLOCKER_SECURE_BOOT));
    }
    if !grub {
        blockers.push(String::from_str(BLOCKER_GRUB));
    }
    if !ram_ok {
        let mut b = String::from_str("RAM livre ");
        push_dec(&mut b, ram);
        push_str(&mut b, " MiB < ");
        push_dec(&mut b, RAM_NEEDED_MB);
        push_str(&mut b, " MiB — o instalador carrega inteiro na memória");
        blockers.push(b);
    }
    proof {
        assert(blockers@.map_values(|b: String| b@) =~= blockers_of(has_iso, sb_off, grub, ram));
    }
    let ready = has_iso && sb_off && grub && ram_ok;
    DiskBootReadiness {
        iso_path: iso,
        secure_boot_off: sb_off,
        grub_present: grub,
        update_grub_present: true,
        ram_available_mb: ram,
        ram_needed_mb: RAM_NEEDED_MB,
        ram_ok,
        wimboot_present,
        wimboot_needs_download: !wimboot_present,
        ready,
        blockers,
    }
}

// ------------------------------------------------------------ GRUB entry

pub const GRUB_ENTRY_0: &'static str = "#!/bin/sh\nexec tail -n +3 $0\n# SYSFORGE — instalação sem pendrive (ISO em disco + wimboot na RAM).\n# Remover este arquivo + `update-grub` remove a entrada por inteiro.\nmenuentry \"SYSFORGE — Instalar Windows 11 (sem pendrive)\" {\n    set isofile=\"";
pub const GRUB_ENTRY_1: &'static str = "\"\n    search --no-floppy --file --set=root $isofile\n    insmod part_gpt\n    insmod ext2\n    loopback loop $isofile\n    echo \"Carregando o instalador do Windows para a RAM (wimboot)...\"\n    linux ($root)";
pub const GRUB_ENTRY_2: &'static str = "\n    initrd (loop)/boot/bcd BCD\n    initrd (loop)/boot/boot.sdi boot.sdi\n    initrd (loop)/sources/boot.wim boot.wim\n    boot\n}\n";

/// The text of `40_sysforge` for an ISO path.
pub open spec fn grub_entry(iso: Seq<char>) -> Seq<char> {
    GRUB_ENTRY_0@ + iso + GRUB_ENTRY_1@ + WIMBOOT_PATH@ + GRUB_ENTRY_2@
}

/// The GRUB entry (the `40_sysforge` file: dedicated and reversible).
pub fn grub_entry_text(iso: &str) -> (t: String)
    ensures
        t@ == grub_entry(iso@),
{
    let mut t = String::from_str(GRUB_ENTRY_0);
    push_str(&mut t, iso);
    push_str(&mut t, GRUB_ENTRY_1);
    push_str(&mut t, WIMBOOT_PATH);
    push_str(&mut t, GRUB_ENTRY_2);
    t
}

// ------------------------------------------------------------ plan

#[derive(Debug, Clone, Copy, PartialEq, Eq, Structural)]
pub enum WimbootSource {
    AlreadyInstalled,
    DownloadFromOfficial,
}

/// Preparation plan, validated before any write (fail-closed).
#[derive(Debug, Clone)]
pub struct DiskBootPlan {
    pub iso_path: String,
    pub wimboot_source: WimbootSource,
    pub entry_text: String,
    pub entry_file: String,
}

/// The plan, or `SF-BOOT-020` with every blocker when the method is not
/// ready.
pub fn plan(r: &DiskBootReadiness) -> (p: Result<DiskBootPlan, SysforgeError>)
    requires
        r.blockers@.len() == 0 ==> r.iso_path is Some,
    ensures
        r.blockers@.len() > 0 <==> p is Err,
        p matches Err(e) ==> e.code@ == error_code(ErrorDomain::Boot, 20) && e.message@ == "Método disco não pronto"@
            && e.technical@ == join_with(r.blockers@.map_values(|b: String| b@), " · "@)
            && e.recommendation@ == r.blockers@[0]@,
        p matches Ok(x) ==> r.iso_path matches Some(iso) && x.iso_path@ == iso@ && x.entry_text@ == grub_entry(iso@)
            && x.entry_file@ == GRUB_ENTRY_FILE@
            && x.wimboot_source == (if r.wimboot_present { WimbootSource::AlreadyInstalled } else { WimbootSource::DownloadFromOfficial }),
{
    if r.blockers.len() > 0 {
        let tech = join_strings(&r.blockers, " · ");
        return Err(SysforgeError::new(ErrorDomain::Boot, 20, "Método disco não pronto")
            .with_technical(tech.as_str())
            .with_recommendation(r.blockers[0].as_str()));
    }
    let iso = match &r.iso_path {
        Some(p) => clone_string(p),
        None => String::new(),
    };
    Ok(DiskBootPlan {
        entry_text: grub_entry_text(iso.as_str()),
        entry_file: String::from_str(GRUB_ENTRY_FILE),
        iso_path: iso,
        wimboot_source: if r.wimboot_present {
            WimbootSource::AlreadyInstalled
        } else {
            WimbootSource::DownloadFromOfficial
        },
    })
}

// ------------------------------------------------------------ GRUB_DEFAULT

/// A line that makes `GRUB_DEFAULT=saved` active (not commented).
pub open spec fn saved_line(l: Seq<char>) -> bool {
    trim(l) == "GRUB_DEFAULT=saved"@ || starts_with(trim(l), "GRUB_DEFAULT=\"saved\""@)
}

/// Is `GRUB_DEFAULT=saved` active in `/etc/default/grub`?
pub open spec fn grub_default_saved(s: Seq<char>) -> bool {
    exists|k: int| 0 <= k < lines(s).len() && saved_line(#[trigger] lines(s)[k])
}

/// Exec form of [`grub_default_saved`].
pub fn regex_lite(s: &str) -> (b: bool)
    ensures
        b == grub_default_saved(s@),
{
    let v = chars_of(s);
    let ls = lines_of(v.as_slice());
    let a = chars_of("GRUB_DEFAULT=saved");
    let q = chars_of("GRUB_DEFAULT=\"saved\"");
    let mut i: usize = 0;
    while i < ls.len()
        invariant
            i <= ls.len(),
            v@ == s@,
            a@ == "GRUB_DEFAULT=saved"@,
            q@ == "GRUB_DEFAULT=\"saved\""@,
            ls@.len() == lines(s@).len(),
            forall|k: int| 0 <= k < ls@.len() ==> #[trigger] ls@[k]@ == lines(s@)[k],
            forall|k: int| 0 <= k < i ==> !saved_line(#[trigger] lines(s@)[k]),
        decreases ls.len() - i,
    {
        let t = trim_chars(ls[i].as_slice());
        let eq = crate::text::chars_eq(t.as_slice(), a.as_slice());
        if eq || starts_with_chars(t.as_slice(), q.as_slice()) {
            proof {
                assert(ls@[i as int]@ == lines(s@)[i as int]);
            }
            return true;
        }
        proof {
            assert(ls@[i as int]@ == lines(s@)[i as int]);
        }
        i += 1;
    }
    false
}

pub const GRUB_SAVED_BLOCK: &'static str = "# SYSFORGE: permite boot one-shot via grub-reboot\nGRUB_DEFAULT=saved\n";

/// The new `/etc/default/grub` when `GRUB_DEFAULT=saved` is missing (the
/// old text, trailing whitespace removed, a newline when not empty, then a
/// marked block); `None` when nothing has to change (idempotent).
pub fn ensure_grub_default_saved(current: &str) -> (r: Option<String>)
    ensures
        grub_default_saved(current@) <==> r is None,
        r matches Some(t) ==> t@ == crate::text::trim_end(current@)
            + (if crate::text::trim_end(current@).len() > 0 { "\n"@ } else { Seq::empty() }) + GRUB_SAVED_BLOCK@,
{
    if regex_lite(current) {
        return None;
    }
    let v = chars_of(current);
    let mut b = v.len();
    while b > 0 && crate::text::is_ws_char(v[b - 1])
        invariant
            b <= v.len(),
            forall|k: int| b <= k < v@.len() ==> crate::text::is_ws(#[trigger] v@[k]),
        decreases b,
    {
        b -= 1;
    }
    proof {
        crate::text::lemma_ws_trail(v@, b as int);
        assert(v@.subrange(0, b as int) =~= crate::text::trim_end(current@));
    }
    let mut text = crate::text::string_range(v.as_slice(), 0, b);
    if text.as_str().unicode_len() > 0 {
        push_str(&mut text, "\n");
    }
    push_str(&mut text, GRUB_SAVED_BLOCK);
    Some(text)
}


// ------------------------------------------------------------ commands

/// Download of wimboot from the official iPXE release.
pub fn wimboot_download_spec() -> (spec: CommandSpec)
    ensures
        spec.program@ == "curl"@,
        arg_views(spec.args@) == seq!["-fL"@, "--retry"@, "3"@, "-o"@, WIMBOOT_PATH@, WIMBOOT_URL@],
        spec.env@.len() == 0,
        spec.timeout_secs == 120,
{
    let spec = CommandSpec::new("curl").arg("-fL").arg("--retry").arg("3").arg("-o").arg(WIMBOOT_PATH).arg(
        WIMBOOT_URL,
    ).timeout(120);
    assert(arg_views(spec.args@) =~= seq!["-fL"@, "--retry"@, "3"@, "-o"@, WIMBOOT_PATH@, WIMBOOT_URL@]);
    spec
}

/// The error when the wimboot download failed.
pub fn wimboot_download_failed(r: &ExecResult) -> (e: SysforgeError)
    ensures
        e.code@ == error_code(ErrorDomain::Dep, 20),
        e.message@ == "Falha ao baixar o wimboot (iPXE oficial)"@,
        e.technical@ == "curl exit "@ + exit_debug(r.exit_code) + ": "@ + trim(r.stderr@),
        e.recommendation@ == "Baixe manualmente "@ + WIMBOOT_URL@ + " para "@ + WIMBOOT_PATH@ + " e repita."@,
{
    let mut tech = String::from_str("curl exit ");
    push_exit_debug(&mut tech, r.exit_code);
    push_str(&mut tech, ": ");
    let t = trim_string(chars_of(r.stderr.as_str()).as_slice());
    push_str(&mut tech, t.as_str());
    let mut rec = String::from_str("Baixe manualmente ");
    push_str(&mut rec, WIMBOOT_URL);
    push_str(&mut rec, " para ");
    push_str(&mut rec, WIMBOOT_PATH);
    push_str(&mut rec, " e repita.");
    SysforgeError::new(ErrorDomain::Dep, 20, "Falha ao baixar o wimboot (iPXE oficial)")
        .with_technical(tech.as_str())
        .with_recommendation(rec.as_str())
}

/// `update-grub` (regenerates the menu with the dedicated entry).
pub fn update_grub_spec() -> (spec: CommandSpec)
    ensures
        spec.program@ == "update-grub"@,
        spec.args@.len() == 0,
        spec.env@.len() == 0,
        spec.timeout_secs == 90,
{
    CommandSpec::new("update-grub").timeout(90)
}

/// `grub-reboot <title>`: the NEXT boot goes straight to the entry
/// (one-shot, like BootNext). The name is stable, the index is not.
pub fn grub_reboot_spec() -> (spec: CommandSpec)
    ensures
        spec.program@ == "grub-reboot"@,
        arg_views(spec.args@) == seq![GRUB_ENTRY_TITLE@],
        spec.env@.len() == 0,
        spec.timeout_secs == 30,
{
    let spec = CommandSpec::new("grub-reboot").arg(GRUB_ENTRY_TITLE).timeout(30);
    assert(arg_views(spec.args@) =~= seq![GRUB_ENTRY_TITLE@]);
    spec
}

/// The error when `grub-reboot` failed: the entry can still be picked by
/// hand in the GRUB menu.
pub fn grub_reboot_failed(r: &ExecResult) -> (e: SysforgeError)
    ensures
        e.code@ == error_code(ErrorDomain::Io, 1),
        e.message@ == "O comando `"@ + "grub-reboot"@ + "` falhou"@,
        e.technical@ == "`"@ + "grub-reboot"@ + " "@ + "` terminou com status "@ + exit_debug(r.exit_code) + ". stderr: "@
            + trim(r.stderr@),
        e.recommendation@ == "Se falhou, o menu do GRUB aparece no boot: escolha a entrada SYSFORGE manualmente (uma vez)."@,
{
    let none: Vec<String> = Vec::new();
    let e = SysforgeError::command_failed("grub-reboot", none.as_slice(), r.exit_code, r.stderr.as_str());
    proof {
        assert(none@.map_values(|a: String| a@) =~= Seq::<Seq<char>>::empty());
        assert(e.technical@ =~= "`"@ + "grub-reboot"@ + " "@ + "` terminou com status "@ + exit_debug(r.exit_code)
            + ". stderr: "@ + trim(r.stderr@));
    }
    e.with_recommendation("Se falhou, o menu do GRUB aparece no boot: escolha a entrada SYSFORGE manualmente (uma vez).")
}


/// GRUB2 owns the boot: its `grub.cfg` exists and `update-grub` is
/// installed (in /usr/sbin or /usr/bin).
pub fn grub_present(grub_cfg: bool, update_grub_sbin: bool, update_grub_bin: bool) -> (b: bool)
    ensures
        b == (grub_cfg && (update_grub_sbin || update_grub_bin)),
{
    grub_cfg && (update_grub_sbin || update_grub_bin)
}

/// Points the NEXT boot at the dedicated entry (one-shot): the
/// `grub-reboot` run, low risk.
pub fn arm_grub_next_boot(exec: &crate::executor::Executor) -> (p: crate::executor::RunPlan)
    ensures
        match p {
            crate::executor::RunPlan::Execute(s, k) => exec.spec_mode() == crate::executor::ExecutorMode::Real
                && k == crate::executor::Risk::LowRisk && s.program@ == "grub-reboot"@
                && arg_views(s.args@) == seq![GRUB_ENTRY_TITLE@],
            crate::executor::RunPlan::Simulate(s, k) => exec.spec_mode() == crate::executor::ExecutorMode::DryRun
                && k == crate::executor::Risk::LowRisk && s.program@ == "grub-reboot"@
                && arg_views(s.args@) == seq![GRUB_ENTRY_TITLE@],
        },
{
    exec.run_low_risk(grub_reboot_spec())
}

/// The outcome of `grub-reboot`: its failure keeps the manual way open.
pub fn arm_grub_outcome(r: &ExecResult) -> (out: Result<(), SysforgeError>)
    ensures
        r.exit_code == Some(0i32) <==> out is Ok,
        out matches Err(e) ==> e.code@ == error_code(ErrorDomain::Io, 1)
            && e.message@ == "O comando `"@ + "grub-reboot"@ + "` falhou"@
            && e.technical@ == "`"@ + "grub-reboot"@ + " "@ + "` terminou com status "@ + exit_debug(r.exit_code)
            + ". stderr: "@ + trim(r.stderr@)
            && e.recommendation@ == "Se falhou, o menu do GRUB aparece no boot: escolha a entrada SYSFORGE manualmente (uma vez)."@,
{
    if r.success() {
        Ok(())
    } else {
        Err(grub_reboot_failed(r))
    }
}
} // verus!
