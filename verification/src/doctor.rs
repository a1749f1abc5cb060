//! The environment diagnosis behind `sysforge doctor`: eleven checks over
//! what the machine offers, each with an honest verdict and detail, then a
//! tally and the next steps with the exact commands. What is missing is
//! reported with its code (SF-…) and the apt package that provides it.

use vstd::prelude::*;

use crate::boot::efi::EfiBootState;
use crate::boot::esp::EspInfo;
use crate::capability::{CapabilityReport, GroupCount, ToolStatus};
use crate::disk::identity::DiskIdentity;
use crate::error::SysforgeError;
use crate::executor::{disk_of, disk_of_partition};
use crate::text::{clone_string, dec, join_strings, join_with, opt_view, push_dec, push_str, starts_with, str_eq};
use crate::ui::{fmt_bytes, fmt_bytes_text, paint, push_piece, shows, tag_fail, tag_ok, tag_warn, Piece};
use crate::Availability;

verus! {

/// The exact command that installs the desktop app's build headers
/// (Tauri 2 on Ubuntu 24.04 / Mint 22).
pub const APT_BUILD_DEPS: &'static str = "sudo apt install -y libwebkit2gtk-4.1-dev libgtk-3-dev libsoup-3.0-dev librsvg2-dev libayatana-appindicator3-dev libssl-dev libxdo-dev file pkg-config";

/// Recommended runtime tools (disk health, Windows media, QEMU).
pub const APT_RUNTIME_DEPS: &'static str = "sudo apt install -y smartmontools nvme-cli xorriso wimtools mtools qemu-system-x86 qemu-utils ovmf memtest86+ testdisk";

/// Free space under which the ESP is reported as at risk (32 MiB).
pub const ESP_LOW_FREE: u64 = 33554432;

/// The verdict of one check.
#[derive(Debug, Clone, Copy, PartialEq, Eq, Structural)]
pub enum Verdict {
    Pass,
    Warn,
    Fail,
}

/// One check: its name, verdict and readable detail.
#[derive(Debug, Clone)]
pub struct Finding {
    pub name: String,
    pub status: Verdict,
    pub detail: String,
}

pub struct FindingV {
    pub name: Seq<char>,
    pub status: Verdict,
    pub detail: Seq<char>,
}

impl View for Finding {
    type V = FindingV;

    open spec fn view(&self) -> FindingV {
        FindingV { name: self.name@, status: self.status, detail: self.detail@ }
    }
}

pub open spec fn finding(name: Seq<char>, status: Verdict, detail: Seq<char>) -> FindingV {
    FindingV { name, status, detail }
}

fn make(name: &str, status: Verdict, detail: String) -> (f: Finding)
    ensures
        f@ == finding(name@, status, detail@),
{
    Finding { name: String::from_str(name), status, detail }
}

/// A daemon that answered `daemon.info`: its socket, and its version and
/// mode as the reply's JSON values render them.
#[derive(Debug, Clone)]
pub struct DaemonSeen {
    pub socket: String,
    pub version: String,
    pub mode: String,
}

/// Everything the diagnosis looks at, read from the machine beforehand.
pub struct DoctorProbe {
    pub caps: CapabilityReport,
    /// The machine boots in UEFI mode.
    pub is_uefi: bool,
    /// Secure Boot state (`None` when unreadable).
    pub secure_boot: Option<bool>,
    pub esp: EspInfo,
    /// The device of the live rootfs and the identity probe of its disk;
    /// `None` when the rootfs device could not be determined.
    pub system_disk: Option<(String, Result<DiskIdentity, SysforgeError>)>,
    /// The `efibootmgr` read.
    pub efi: Result<EfiBootState, SysforgeError>,
    /// The first daemon that answered, if any.
    pub daemon: Option<DaemonSeen>,
    /// A polkit authentication agent is running.
    pub agent_present: bool,
}

/// A text or nothing.
pub open spec fn or_empty(o: Option<Seq<char>>) -> Seq<char> {
    match o {
        Some(s) => s,
        None => Seq::empty(),
    }
}

fn or_empty_of(o: &Option<String>) -> (s: String)
    ensures
        s@ == or_empty(opt_view(*o)),
{
    match o {
        Some(x) => clone_string(x),
        None => String::new(),
    }
}

// ------------------------------------------------------------ 1: core tools

/// `(present, total)` of the group named "core" (zeros when absent).
pub open spec fn core_counts(groups: Seq<GroupCount>) -> (nat, nat)
    decreases groups.len(),
{
    if groups.len() == 0 {
        (0, 0)
    } else if groups[0].group@ == "core"@ {
        (groups[0].present as nat, groups[0].total as nat)
    } else {
        core_counts(groups.drop_first())
    }
}

/// `"name (package)"` of each core tool that is missing, in registry order.
pub open spec fn core_missing(tools: Seq<ToolStatus>) -> Seq<Seq<char>>
    decreases tools.len(),
{
    if tools.len() == 0 {
        seq![]
    } else {
        let r = core_missing(tools.drop_last());
        let t = tools.last();
        if t.group@ == "core"@ && !t.found {
            r.push(t.name@ + " ("@ + t.apt_package@ + ")"@)
        } else {
            r
        }
    }
}

pub open spec fn core_finding(caps: CapabilityReport) -> FindingV {
    let (found, total) = core_counts(caps.groups@);
    let missing = core_missing(caps.tools@);
    if missing.len() == 0 {
        finding(
            "ferramentas essenciais (core)"@,
            Verdict::Pass,
            dec(found) + "/"@ + dec(total) + " presentes — particionamento, formatação, UKI e boot cobertos"@,
        )
    } else {
        finding("ferramentas essenciais (core)"@, Verdict::Fail, "faltando: "@ + join_with(missing, ", "@))
    }
}

fn core_counts_of(groups: &Vec<GroupCount>) -> (r: (usize, usize))
    ensures
        (r.0 as nat, r.1 as nat) == core_counts(groups@),
{
    let mut i: usize = 0;
    assert(groups@.skip(0) =~= groups@);
    while i < groups.len()
        invariant
            i <= groups.len(),
            core_counts(groups@) == core_counts(groups@.skip(i as int)),
        decreases groups.len() - i,
    {
        assert(groups@.skip(i as int)[0] == groups@[i as int]);
        if str_eq(groups[i].group.as_str(), "core") {
            return (groups[i].present, groups[i].total);
        }
        assert(groups@.skip(i as int).drop_first() =~= groups@.skip(i + 1));
        i += 1;
    }
    assert(groups@.skip(i as int).len() == 0);
    (0, 0)
}

fn core_missing_of(tools: &Vec<ToolStatus>) -> (r: Vec<String>)
    ensures
        r@.map_values(|s: String| s@) == core_missing(tools@),
{
    let mut r: Vec<String> = Vec::new();
    let mut i: usize = 0;
    while i < tools.len()
        invariant
            i <= tools.len(),
            r@.map_values(|s: String| s@) == core_missing(tools@.take(i as int)),
        decreases tools.len() - i,
    {
        let t = &tools[i];
        proof {
            assert(tools@.take(i + 1).drop_last() =~= tools@.take(i as int));
            assert(tools@.take(i + 1).last() == *t);
        }
        if str_eq(t.group, "core") && !t.found {
            let mut s = String::from_str(t.name.as_str());
            push_str(&mut s, " (");
            push_str(&mut s, t.apt_package);
            push_str(&mut s, ")");
            r.push(s);
        }
        proof {
            assert(r@.map_values(|s: String| s@) =~= core_missing(tools@.take(i + 1)));
        }
        i += 1;
    }
    assert(tools@.take(tools.len() as int) =~= tools@);
    r
}

fn core_check(caps: &CapabilityReport) -> (f: Finding)
    ensures
        f@ == core_finding(*caps),
{
    let (found, total) = core_counts_of(&caps.groups);
    let missing = core_missing_of(&caps.tools);
    if missing.len() == 0 {
        let mut d = String::new();
        push_dec(&mut d, found as u64);
        push_str(&mut d, "/");
        push_dec(&mut d, total as u64);
        push_str(&mut d, " presentes — particionamento, formatação, UKI e boot cobertos");
        make("ferramentas essenciais (core)", Verdict::Pass, d)
    } else {
        let mut d = String::from_str("faltando: ");
        let j = join_strings(&missing, ", ");
        push_str(&mut d, j.as_str());
        make("ferramentas essenciais (core)", Verdict::Fail, d)
    }
}

// ------------------------------------------------------------ tool lookups

/// A tool of that name was found.
pub open spec fn tool_found(tools: Seq<ToolStatus>, name: Seq<char>) -> bool {
    exists|i: int| 0 <= i < tools.len() && (#[trigger] tools[i]).name@ == name && tools[i].found
}

fn has_tool(tools: &Vec<ToolStatus>, name: &str) -> (b: bool)
    ensures
        b == tool_found(tools@, name@),
{
    let mut i: usize = 0;
    while i < tools.len()
        invariant
            i <= tools.len(),
            forall|j: int| 0 <= j < i ==> !((#[trigger] tools@[j]).name@ == name@ && tools@[j].found),
        decreases tools.len() - i,
    {
        if str_eq(tools[i].name.as_str(), name) && tools[i].found {
            return true;
        }
        i += 1;
    }
    false
}

// ------------------------------------------------------------ 2: polkit

pub open spec fn auth_finding(caps: CapabilityReport) -> FindingV {
    let have = tool_found(caps.tools@, "pkexec"@) && tool_found(caps.tools@, "pkcheck"@);
    let mok = tool_found(caps.tools@, "mokutil"@);
    if have && mok {
        finding("autorização (polkit)"@, Verdict::Pass, "pkexec, pkcheck e mokutil presentes"@)
    } else if have {
        finding(
            "autorização (polkit)"@,
            Verdict::Warn,
            "mokutil ausente (pacote mokutil) — só afeta estados MOK/Secure Boot"@,
        )
    } else {
        finding("autorização (polkit)"@, Verdict::Fail, "policykit ausente — o daemon system não poderá autenticar"@)
    }
}

fn auth_check(caps: &CapabilityReport) -> (f: Finding)
    ensures
        f@ == auth_finding(*caps),
{
    let have = has_tool(&caps.tools, "pkexec") && has_tool(&caps.tools, "pkcheck");
    let mok = has_tool(&caps.tools, "mokutil");
    if have && mok {
        make("autorização (polkit)", Verdict::Pass, String::from_str("pkexec, pkcheck e mokutil presentes"))
    } else if have {
        make(
            "autorização (polkit)",
            Verdict::Warn,
            String::from_str("mokutil ausente (pacote mokutil) — só afeta estados MOK/Secure Boot"),
        )
    } else {
        make("autorização (polkit)", Verdict::Fail, String::from_str("policykit ausente — o daemon system não poderá autenticar"))
    }
}

// ------------------------------------------------------------ 3: UEFI

pub open spec fn uefi_finding(is_uefi: bool, secure_boot: Option<bool>) -> FindingV {
    if !is_uefi {
        finding("UEFI + Secure Boot"@, Verdict::Fail, "máquina não boota em UEFI — plataforma exige UEFI nativo"@)
    } else {
        match secure_boot {
            Some(true) => finding(
                "UEFI + Secure Boot"@,
                Verdict::Warn,
                "Secure Boot HABILITADO — drivers/UKIs precisarão ser assinados (mok)"@,
            ),
            Some(false) => finding(
                "UEFI + Secure Boot"@,
                Verdict::Pass,
                "UEFI nativo · Secure Boot desabilitado — UKIs de teste bootam direto"@,
            ),
            None => finding(
                "UEFI + Secure Boot"@,
                Verdict::Warn,
                "UEFI nativo · valor de Secure Boot ilegível (SF-UEFI-001)"@,
            ),
        }
    }
}

fn uefi_check(is_uefi: bool, secure_boot: Option<bool>) -> (f: Finding)
    ensures
        f@ == uefi_finding(is_uefi, secure_boot),
{
    if !is_uefi {
        return make(
            "UEFI + Secure Boot",
            Verdict::Fail,
            String::from_str("máquina não boota em UEFI — plataforma exige UEFI nativo"),
        );
    }
    match secure_boot {
        Some(true) => make(
            "UEFI + Secure Boot",
            Verdict::Warn,
            String::from_str("Secure Boot HABILITADO — drivers/UKIs precisarão ser assinados (mok)"),
        ),
        Some(false) => make(
            "UEFI + Secure Boot",
            Verdict::Pass,
            String::from_str("UEFI nativo · Secure Boot desabilitado — UKIs de teste bootam direto"),
        ),
        None => make(
            "UEFI + Secure Boot",
            Verdict::Warn,
            String::from_str("UEFI nativo · valor de Secure Boot ilegível (SF-UEFI-001)"),
        ),
    }
}

// ------------------------------------------------------------ 4: ESP

pub open spec fn esp_finding(esp: EspInfo) -> FindingV {
    if !esp.mounted {
        finding("ESP (/boot/efi)"@, Verdict::Fail, "não montada — SF-BOOT-002: instalação UEFI indisponível"@)
    } else if esp.free_bytes < ESP_LOW_FREE {
        finding(
            "ESP (/boot/efi)"@,
            Verdict::Warn,
            "montada em "@ + or_empty(opt_view(esp.device)) + " mas só "@ + fmt_bytes_text(esp.free_bytes as nat)
                + " livres — risco de estourar com UKIs"@,
        )
    } else {
        finding(
            "ESP (/boot/efi)"@,
            Verdict::Pass,
            or_empty(opt_view(esp.device)) + " · "@ + fmt_bytes_text(esp.free_bytes as nat) + " livres de "@
                + fmt_bytes_text(esp.total_bytes as nat) + " · escrita "@ + if esp.restricted_permissions {
                "via daemon (umask=0077)"@
            } else {
                "direta"@
            },
        )
    }
}

fn esp_check(esp: &EspInfo) -> (f: Finding)
    ensures
        f@ == esp_finding(*esp),
{
    if !esp.mounted {
        return make(
            "ESP (/boot/efi)",
            Verdict::Fail,
            String::from_str("não montada — SF-BOOT-002: instalação UEFI indisponível"),
        );
    }
    let dev = or_empty_of(&esp.device);
    if esp.free_bytes < ESP_LOW_FREE {
        let mut d = String::from_str("montada em ");
        push_str(&mut d, dev.as_str());
        push_str(&mut d, " mas só ");
        push_str(&mut d, fmt_bytes(esp.free_bytes).as_str());
        push_str(&mut d, " livres — risco de estourar com UKIs");
        make("ESP (/boot/efi)", Verdict::Warn, d)
    } else {
        let mut d = dev;
        push_str(&mut d, " · ");
        push_str(&mut d, fmt_bytes(esp.free_bytes).as_str());
        push_str(&mut d, " livres de ");
        push_str(&mut d, fmt_bytes(esp.total_bytes).as_str());
        push_str(&mut d, " · escrita ");
        push_str(&mut d, if esp.restricted_permissions { "via daemon (umask=0077)" } else { "direta" });
        make("ESP (/boot/efi)", Verdict::Pass, d)
    }
}

// ------------------------------------------------------------ 5: system disk

/// The disk that holds the rootfs device (the device itself when it names
/// no partition).
pub open spec fn system_disk_of(root: Seq<char>) -> Seq<char> {
    match disk_of(root) {
        Some(d) => d,
        None => root,
    }
}

/// The disk whose identity the diagnosis probes, for the rootfs device.
pub fn system_disk(root: &str) -> (d: String)
    ensures
        d@ == system_disk_of(root@),
{
    match disk_of_partition(root) {
        Some(d) => d,
        None => String::from_str(root),
    }
}

pub open spec fn identity_finding(probe: Option<(String, Result<DiskIdentity, SysforgeError>)>) -> FindingV {
    match probe {
        None => finding(
            "identidade do disco do sistema"@,
            Verdict::Fail,
            "não consegui determinar o disco do rootfs (/proc/mounts)"@,
        ),
        Some((root, Ok(id))) => finding(
            "identidade do disco do sistema"@,
            Verdict::Pass,
            system_disk_of(root@) + " em "@ + root@ + " · serial "@ + or_empty(opt_view(id.serial))
                + " — guard de disco vivo armado (SF-DISK-010)"@,
        ),
        Some((root, Err(e))) => finding(
            "identidade do disco do sistema"@,
            Verdict::Warn,
            "sondagem falhou: "@ + e.code@ + " ("@ + e.message@ + ")"@,
        ),
    }
}

fn identity_check(probe: &Option<(String, Result<DiskIdentity, SysforgeError>)>) -> (f: Finding)
    ensures
        f@ == identity_finding(*probe),
{
    match probe {
        None => make(
            "identidade do disco do sistema",
            Verdict::Fail,
            String::from_str("não consegui determinar o disco do rootfs (/proc/mounts)"),
        ),
        Some((root, Ok(id))) => {
            let mut d = system_disk(root.as_str());
            push_str(&mut d, " em ");
            push_str(&mut d, root.as_str());
            push_str(&mut d, " · serial ");
            push_str(&mut d, or_empty_of(&id.serial).as_str());
            push_str(&mut d, " — guard de disco vivo armado (SF-DISK-010)");
            make("identidade do disco do sistema", Verdict::Pass, d)
        },
        Some((_, Err(e))) => {
            let mut d = String::from_str("sondagem falhou: ");
            push_str(&mut d, e.code.as_str());
            push_str(&mut d, " (");
            push_str(&mut d, e.message.as_str());
            push_str(&mut d, ")");
            make("identidade do disco do sistema", Verdict::Warn, d)
        },
    }
}

// ------------------------------------------------------------ 6: UEFI entries

pub open spec fn efi_finding(efi: Result<EfiBootState, SysforgeError>) -> FindingV {
    match efi {
        Ok(st) => finding(
            "entradas de boot UEFI"@,
            Verdict::Pass,
            dec(st.entries@.len()) + " entradas legíveis · boot atual "@ + match opt_view(st.boot_current) {
                Some(c) => c,
                None => "—"@,
            } + " · leitura sem root OK"@,
        ),
        Err(e) => finding(
            "entradas de boot UEFI"@,
            Verdict::Warn,
            "efibootmgr falhou: "@ + e.code@ + " — "@ + e.message@,
        ),
    }
}

fn efi_check(efi: &Result<EfiBootState, SysforgeError>) -> (f: Finding)
    ensures
        f@ == efi_finding(*efi),
{
    match efi {
        Ok(st) => {
            let mut d = String::new();
            push_dec(&mut d, st.entries.len() as u64);
            push_str(&mut d, " entradas legíveis · boot atual ");
            match &st.boot_current {
                Some(c) => push_str(&mut d, c.as_str()),
                None => push_str(&mut d, "—"),
            }
            push_str(&mut d, " · leitura sem root OK");
            make("entradas de boot UEFI", Verdict::Pass, d)
        },
        Err(e) => {
            let mut d = String::from_str("efibootmgr falhou: ");
            push_str(&mut d, e.code.as_str());
            push_str(&mut d, " — ");
            push_str(&mut d, e.message.as_str());
            make("entradas de boot UEFI", Verdict::Warn, d)
        },
    }
}

// ------------------------------------------------------------ 7: daemon

pub open spec fn daemon_finding(daemon: Option<DaemonSeen>) -> FindingV {
    match daemon {
        Some(d) => finding(
            "daemon sysforge-osd"@,
            Verdict::Pass,
            "v"@ + d.version@ + " · modo "@ + d.mode@ + " · "@ + d.socket@,
        ),
        None => finding(
            "daemon sysforge-osd"@,
            Verdict::Warn,
            "não está rodando — leitura direta funciona; destructive exigirá modo system"@,
        ),
    }
}

fn daemon_check(daemon: &Option<DaemonSeen>) -> (f: Finding)
    ensures
        f@ == daemon_finding(*daemon),
{
    match daemon {
        Some(d) => {
            let mut t = String::from_str("v");
            push_str(&mut t, d.version.as_str());
            push_str(&mut t, " · modo ");
            push_str(&mut t, d.mode.as_str());
            push_str(&mut t, " · ");
            push_str(&mut t, d.socket.as_str());
            make("daemon sysforge-osd", Verdict::Pass, t)
        },
        None => make(
            "daemon sysforge-osd",
            Verdict::Warn,
            String::from_str("não está rodando — leitura direta funciona; destructive exigirá modo system"),
        ),
    }
}

// ------------------------------------------------------------ 8: virtualization

/// How many found tools have a name that begins with "qemu".
pub open spec fn qemu_found(tools: Seq<ToolStatus>) -> nat
    decreases tools.len(),
{
    if tools.len() == 0 {
        0
    } else {
        let t = tools.last();
        qemu_found(tools.drop_last()) + if starts_with(t.name@, "qemu"@) && t.found {
            1nat
        } else {
            0nat
        }
    }
}

proof fn lemma_qemu_found_bound(tools: Seq<ToolStatus>)
    ensures
        qemu_found(tools) <= tools.len(),
    decreases tools.len(),
{
    if tools.len() > 0 {
        lemma_qemu_found_bound(tools.drop_last());
    }
}

pub open spec fn virt_finding(caps: CapabilityReport) -> FindingV {
    if caps.kvm is Available && caps.ovmf is Available && qemu_found(caps.tools@) == 2 {
        finding(
            "virtualização (testes futuros)"@,
            Verdict::Pass,
            "KVM + OVMF + QEMU prontos para testes destrutivos em VM"@,
        )
    } else {
        finding(
            "virtualização (testes futuros)"@,
            Verdict::Warn,
            "incompleto — testes destrutivos da Fase 9 exigem (veja comando abaixo)"@,
        )
    }
}

fn qemu_found_of(tools: &Vec<ToolStatus>) -> (n: usize)
    ensures
        n == qemu_found(tools@),
{
    let mut n: usize = 0;
    let mut i: usize = 0;
    while i < tools.len()
        invariant
            i <= tools.len(),
            n == qemu_found(tools@.take(i as int)),
        decreases tools.len() - i,
    {
        proof {
            assert(tools@.take(i + 1).drop_last() =~= tools@.take(i as int));
            lemma_qemu_found_bound(tools@.take(i as int));
        }
        let name = crate::text::chars_of(tools[i].name.as_str());
        let q = crate::text::chars_of("qemu");
        if crate::text::starts_with_chars(name.as_slice(), q.as_slice()) && tools[i].found {
            n = n + 1;
        }
        i += 1;
    }
    assert(tools@.take(tools.len() as int) =~= tools@);
    n
}

fn virt_check(caps: &CapabilityReport) -> (f: Finding)
    ensures
        f@ == virt_finding(*caps),
{
    let kvm = match &caps.kvm {
        Availability::Available => true,
        _ => false,
    };
    let ovmf = match &caps.ovmf {
        Availability::Available => true,
        _ => false,
    };
    if kvm && ovmf && qemu_found_of(&caps.tools) == 2 {
        make(
            "virtualização (testes futuros)",
            Verdict::Pass,
            String::from_str("KVM + OVMF + QEMU prontos para testes destrutivos em VM"),
        )
    } else {
        make(
            "virtualização (testes futuros)",
            Verdict::Warn,
            String::from_str("incompleto — testes destrutivos da Fase 9 exigem (veja comando abaixo)"),
        )
    }
}

// ------------------------------------------------------------ 9, 10, 11

pub open spec fn smart_finding(caps: CapabilityReport) -> FindingV {
    if tool_found(caps.tools@, "smartctl"@) {
        finding(
            "saúde de disco (SMART)"@,
            Verdict::Pass,
            "smartctl instalado (detalhes completos via daemon system)"@,
        )
    } else {
        finding(
            "saúde de disco (SMART)"@,
            Verdict::Warn,
            "smartctl ausente — SF-DEP-005: `sysforge disks` reporta SMART como indisponível (honesto)"@,
        )
    }
}

pub open spec fn headers_finding(caps: CapabilityReport) -> FindingV {
    if caps.tauri_build_ready {
        finding(
            "headers de build do app desktop"@,
            Verdict::Pass,
            "webkit2gtk-4.1/gtk3/soup3 encontrados — `cargo build` do app compila"@,
        )
    } else {
        finding(
            "headers de build do app desktop"@,
            Verdict::Warn,
            "headers webkit2gtk-4.1-dev ausentes — app desktop não compila ATÉ instalar (comando abaixo)"@,
        )
    }
}

pub open spec fn agent_finding(caps: CapabilityReport, agent_present: bool) -> FindingV {
    if !tool_found(caps.tools@, "pkexec"@) {
        finding("agente de diálogo polkit"@, Verdict::Fail, "pkexec ausente — modo privilegiado não funciona"@)
    } else if agent_present {
        finding(
            "agente de diálogo polkit"@,
            Verdict::Pass,
            "agente ativo — o app consegue pedir sua senha na tela"@,
        )
    } else {
        finding(
            "agente de diálogo polkit"@,
            Verdict::Warn,
            "nenhum agente rodando — o APP pode não conseguir pedir senha na tela (CLI no terminal funciona via prompt de texto); autostart do agente já está em ~/.config/autostart"@,
        )
    }
}

fn smart_check(caps: &CapabilityReport) -> (f: Finding)
    ensures
        f@ == smart_finding(*caps),
{
    if has_tool(&caps.tools, "smartctl") {
        make(
            "saúde de disco (SMART)",
            Verdict::Pass,
            String::from_str("smartctl instalado (detalhes completos via daemon system)"),
        )
    } else {
        make(
            "saúde de disco (SMART)",
            Verdict::Warn,
            String::from_str("smartctl ausente — SF-DEP-005: `sysforge disks` reporta SMART como indisponível (honesto)"),
        )
    }
}

fn headers_check(caps: &CapabilityReport) -> (f: Finding)
    ensures
        f@ == headers_finding(*caps),
{
    if caps.tauri_build_ready {
        make(
            "headers de build do app desktop",
            Verdict::Pass,
            String::from_str("webkit2gtk-4.1/gtk3/soup3 encontrados — `cargo build` do app compila"),
        )
    } else {
        make(
            "headers de build do app desktop",
            Verdict::Warn,
            String::from_str("headers webkit2gtk-4.1-dev ausentes — app desktop não compila ATÉ instalar (comando abaixo)"),
        )
    }
}

fn agent_check(caps: &CapabilityReport, agent_present: bool) -> (f: Finding)
    ensures
        f@ == agent_finding(*caps, agent_present),
{
    if !has_tool(&caps.tools, "pkexec") {
        make("agente de diálogo polkit", Verdict::Fail, String::from_str("pkexec ausente — modo privilegiado não funciona"))
    } else if agent_present {
        make(
            "agente de diálogo polkit",
            Verdict::Pass,
            String::from_str("agente ativo — o app consegue pedir sua senha na tela"),
        )
    } else {
        make(
            "agente de diálogo polkit",
            Verdict::Warn,
            String::from_str("nenhum agente rodando — o APP pode não conseguir pedir senha na tela (CLI no terminal funciona via prompt de texto); autostart do agente já está em ~/.config/autostart"),
        )
    }
}

// ------------------------------------------------------------ the diagnosis

/// The eleven findings, in the order the checks run.
pub open spec fn findings_of(p: DoctorProbe) -> Seq<FindingV> {
    seq![
        core_finding(p.caps),
        auth_finding(p.caps),
        uefi_finding(p.is_uefi, p.secure_boot),
        esp_finding(p.esp),
        identity_finding(p.system_disk),
        efi_finding(p.efi),
        daemon_finding(p.daemon),
        virt_finding(p.caps),
        smart_finding(p.caps),
        headers_finding(p.caps),
        agent_finding(p.caps, p.agent_present),
    ]
}

/// Runs the eleven checks over what was read from the machine.
pub fn diagnose(p: &DoctorProbe) -> (fs: Vec<Finding>)
    ensures
        fs@.map_values(|f: Finding| f@) == findings_of(*p),
{
    let mut fs: Vec<Finding> = Vec::new();
    fs.push(core_check(&p.caps));
    fs.push(auth_check(&p.caps));
    fs.push(uefi_check(p.is_uefi, p.secure_boot));
    fs.push(esp_check(&p.esp));
    fs.push(identity_check(&p.system_disk));
    fs.push(efi_check(&p.efi));
    fs.push(daemon_check(&p.daemon));
    fs.push(virt_check(&p.caps));
    fs.push(smart_check(&p.caps));
    fs.push(headers_check(&p.caps));
    fs.push(agent_check(&p.caps, p.agent_present));
    assert(fs@.map_values(|f: Finding| f@) =~= findings_of(*p));
    fs
}

/// How many findings have the verdict `v`.
pub open spec fn count_verdict(fs: Seq<FindingV>, v: Verdict) -> nat
    decreases fs.len(),
{
    if fs.len() == 0 {
        0
    } else {
        count_verdict(fs.drop_last(), v) + if fs.last().status == v {
            1nat
        } else {
            0nat
        }
    }
}

/// Every finding is counted exactly once: the passes, warnings and
/// failures of a diagnosis add up to its number of findings.
pub proof fn law_tally_covers_all(fs: Seq<FindingV>)
    ensures
        count_verdict(fs, Verdict::Pass) + count_verdict(fs, Verdict::Warn) + count_verdict(fs, Verdict::Fail)
            == fs.len(),
    decreases fs.len(),
{
    if fs.len() > 0 {
        law_tally_covers_all(fs.drop_last());
    }
}

/// `(passes, warnings, failures)` among the findings.
pub fn tally(fs: &Vec<Finding>) -> (t: (usize, usize, usize))
    ensures
        t.0 == count_verdict(fs@.map_values(|f: Finding| f@), Verdict::Pass),
        t.1 == count_verdict(fs@.map_values(|f: Finding| f@), Verdict::Warn),
        t.2 == count_verdict(fs@.map_values(|f: Finding| f@), Verdict::Fail),
{
    let ghost all = fs@.map_values(|f: Finding| f@);
    let mut ok: usize = 0;
    let mut warn: usize = 0;
    let mut fail: usize = 0;
    let mut i: usize = 0;
    while i < fs.len()
        invariant
            i <= fs.len(),
            all == fs@.map_values(|f: Finding| f@),
            ok == count_verdict(all.take(i as int), Verdict::Pass),
            warn == count_verdict(all.take(i as int), Verdict::Warn),
            fail == count_verdict(all.take(i as int), Verdict::Fail),
        decreases fs.len() - i,
    {
        proof {
            assert(all.take(i + 1).drop_last() =~= all.take(i as int));
            assert(all.take(i + 1).last() == fs@[i as int]@);
            law_tally_covers_all(all.take(i as int));
        }
        match fs[i].status {
            Verdict::Pass => ok = ok + 1,
            Verdict::Warn => warn = warn + 1,
            Verdict::Fail => fail = fail + 1,
        }
        i += 1;
    }
    assert(all.take(fs.len() as int) =~= all);
    (ok, warn, fail)
}

/// Some tool outside the core group is missing.
pub open spec fn runtime_missing(tools: Seq<ToolStatus>) -> bool {
    exists|i: int| 0 <= i < tools.len() && !(#[trigger] tools[i]).found && tools[i].group@ != "core"@
}

fn runtime_missing_of(tools: &Vec<ToolStatus>) -> (b: bool)
    ensures
        b == runtime_missing(tools@),
{
    let mut i: usize = 0;
    while i < tools.len()
        invariant
            i <= tools.len(),
            forall|j: int| 0 <= j < i ==> !(!(#[trigger] tools@[j]).found && tools@[j].group@ != "core"@),
        decreases tools.len() - i,
    {
        if !tools[i].found && !str_eq(tools[i].group, "core") {
            return true;
        }
        i += 1;
    }
    false
}

/// The next steps, with the exact commands: the desktop build headers when
/// they are missing, the recommended tools when one outside the core group
/// is missing, the bootstrap script always, and the dev daemon when none
/// answered.
pub open spec fn next_steps_text(p: DoctorProbe) -> Seq<Seq<char>> {
    let a: Seq<Seq<char>> = if !p.caps.tauri_build_ready {
        seq!["Compilar o app desktop:\n      "@ + APT_BUILD_DEPS@]
    } else {
        seq![]
    };
    let b = if runtime_missing(p.caps.tools@) {
        a.push("Ferramentas recomendadas (SMART, Windows, QEMU):\n      "@ + APT_RUNTIME_DEPS@)
    } else {
        a
    };
    let c = b.push("Tudo acima de uma vez: bash scripts/bootstrap-linux.sh (idempotente, com --check)"@);
    if p.daemon is None {
        c.push("Subir o daemon dev (somente leitura): sysforge daemon run"@)
    } else {
        c
    }
}

pub fn next_steps(p: &DoctorProbe) -> (steps: Vec<String>)
    ensures
        steps@.map_values(|s: String| s@) == next_steps_text(*p),
        steps@.len() >= 1,
{
    let mut steps: Vec<String> = Vec::new();
    if !p.caps.tauri_build_ready {
        let mut s = String::from_str("Compilar o app desktop:\n      ");
        push_str(&mut s, APT_BUILD_DEPS);
        steps.push(s);
    }
    if runtime_missing_of(&p.caps.tools) {
        let mut s = String::from_str("Ferramentas recomendadas (SMART, Windows, QEMU):\n      ");
        push_str(&mut s, APT_RUNTIME_DEPS);
        steps.push(s);
    }
    steps.push(String::from_str("Tudo acima de uma vez: bash scripts/bootstrap-linux.sh (idempotente, com --check)"));
    if p.daemon.is_none() {
        steps.push(String::from_str("Subir o daemon dev (somente leitura): sysforge daemon run"));
    }
    assert(steps@.map_values(|s: String| s@) =~= next_steps_text(*p));
    steps
}

// ------------------------------------------------------------ lines

/// The badge of a verdict, unstyled.
pub open spec fn verdict_tag(v: Verdict) -> Seq<char> {
    match v {
        Verdict::Pass => "✔"@,
        Verdict::Warn => "⚠"@,
        Verdict::Fail => "✖"@,
    }
}

/// The style of a verdict's badge.
pub open spec fn verdict_color(v: Verdict) -> Seq<char> {
    match v {
        Verdict::Pass => "green"@,
        Verdict::Warn => "yellow"@,
        Verdict::Fail => "red"@,
    }
}

impl Finding {
    /// The badge of the verdict.
    pub fn tag(&self, color: bool) -> (t: String)
        ensures
            !color ==> t@ == verdict_tag(self.status),
            crate::ui::painted(t@, (verdict_tag(self.status), Some(verdict_color(self.status))), color),
    {
        match self.status {
            Verdict::Pass => tag_ok(color),
            Verdict::Warn => tag_warn(color),
            Verdict::Fail => tag_fail(color),
        }
    }
}

/// The line a check prints: badge, name, a dot, detail.
pub open spec fn finding_line_text(f: FindingV) -> Seq<char> {
    "  "@ + verdict_tag(f.status) + " "@ + f.name + " · "@ + f.detail
}

/// The pieces of a check's line: badge, name in bold, a dimmed dot, detail.
pub open spec fn finding_pieces(f: FindingV) -> Seq<Piece> {
    seq![
        ("  "@, None),
        (verdict_tag(f.status), Some(verdict_color(f.status))),
        (" "@, None),
        (f.name, Some("bold"@)),
        (" "@, None),
        ("·"@, Some("dim"@)),
        (" "@, None),
        (f.detail, None),
    ]
}

pub fn finding_line(f: &Finding, color: bool) -> (s: String)
    ensures
        !color ==> s@ == finding_line_text(f@),
        shows(s@, finding_pieces(f@), color),
{
    let mut s = String::new();
    let ghost mut ps: Seq<Piece> = seq![];
    push_piece(&mut s, "  ", Ghost(ps), Ghost(("  "@, None)), color);
    proof { ps = ps.push(("  "@, None)); }
    let t = f.tag(color);
    push_piece(&mut s, t.as_str(), Ghost(ps), Ghost((verdict_tag(f.status), Some(verdict_color(f.status)))), color);
    proof { ps = ps.push((verdict_tag(f.status), Some(verdict_color(f.status)))); }
    push_piece(&mut s, " ", Ghost(ps), Ghost((" "@, None)), color);
    proof { ps = ps.push((" "@, None)); }
    let n = paint(f.name.as_str(), "bold", color);
    push_piece(&mut s, n.as_str(), Ghost(ps), Ghost((f.name@, Some("bold"@))), color);
    proof { ps = ps.push((f.name@, Some("bold"@))); }
    push_piece(&mut s, " ", Ghost(ps), Ghost((" "@, None)), color);
    proof { ps = ps.push((" "@, None)); }
    let dot = paint("·", "dim", color);
    push_piece(&mut s, dot.as_str(), Ghost(ps), Ghost(("·"@, Some("dim"@))), color);
    proof { ps = ps.push(("·"@, Some("dim"@))); }
    push_piece(&mut s, " ", Ghost(ps), Ghost((" "@, None)), color);
    proof { ps = ps.push((" "@, None)); }
    push_piece(&mut s, f.detail.as_str(), Ghost(ps), Ghost((f.detail@, None)), color);
    proof {
        ps = ps.push((f.detail@, None));
        assert(ps =~= finding_pieces(f@));
    }
    proof {
        if !color {
            reveal_strlit(" · ");
            reveal_strlit("·");
            reveal_strlit(" ");
            assert(s@ =~= finding_line_text(f@));
        }
    }
    s
}

/// The tally line: passes, warnings, failures.
pub open spec fn tally_line_text(ok: nat, warn: nat, fail: nat) -> Seq<char> {
    "  ✔ "@ + dec(ok) + " em ordem · ⚠ "@ + dec(warn) + " · ✖ "@ + dec(fail) + " críticos"@
}

/// The pieces of the tally line: each badge and count in its verdict's
/// colour.
pub open spec fn tally_pieces(ok: nat, warn: nat, fail: nat) -> Seq<Piece> {
    seq![
        ("  "@, None),
        ("✔"@, Some("green"@)),
        (" "@, None),
        (dec(ok), Some("green"@)),
        (" em ordem · "@, None),
        ("⚠"@, Some("yellow"@)),
        (" "@, None),
        (dec(warn), Some("yellow"@)),
        (" · "@, None),
        ("✖"@, Some("red"@)),
        (" "@, None),
        (dec(fail), Some("red"@)),
        (" críticos"@, None),
    ]
}

#[verifier::rlimit(60)]
pub fn tally_line(t: (usize, usize, usize), color: bool) -> (s: String)
    ensures
        !color ==> s@ == tally_line_text(t.0 as nat, t.1 as nat, t.2 as nat),
        shows(s@, tally_pieces(t.0 as nat, t.1 as nat, t.2 as nat), color),
{
    let mut ok = String::new();
    push_dec(&mut ok, t.0 as u64);
    let mut warn = String::new();
    push_dec(&mut warn, t.1 as u64);
    let mut fail = String::new();
    push_dec(&mut fail, t.2 as u64);
    let mut s = String::new();
    let ghost mut ps: Seq<Piece> = seq![];
    push_piece(&mut s, "  ", Ghost(ps), Ghost(("  "@, None)), color);
    proof { ps = ps.push(("  "@, None)); }
    let p1 = tag_ok(color);
    push_piece(&mut s, p1.as_str(), Ghost(ps), Ghost(("✔"@, Some("green"@))), color);
    proof { ps = ps.push(("✔"@, Some("green"@))); }
    push_piece(&mut s, " ", Ghost(ps), Ghost((" "@, None)), color);
    proof { ps = ps.push((" "@, None)); }
    let p3 = paint(ok.as_str(), "green", color);
    push_piece(&mut s, p3.as_str(), Ghost(ps), Ghost((ok@, Some("green"@))), color);
    proof { ps = ps.push((ok@, Some("green"@))); }
    push_piece(&mut s, " em ordem · ", Ghost(ps), Ghost((" em ordem · "@, None)), color);
    proof { ps = ps.push((" em ordem · "@, None)); }
    let p5 = tag_warn(color);
    push_piece(&mut s, p5.as_str(), Ghost(ps), Ghost(("⚠"@, Some("yellow"@))), color);
    proof { ps = ps.push(("⚠"@, Some("yellow"@))); }
    push_piece(&mut s, " ", Ghost(ps), Ghost((" "@, None)), color);
    proof { ps = ps.push((" "@, None)); }
    let p7 = paint(warn.as_str(), "yellow", color);
    push_piece(&mut s, p7.as_str(), Ghost(ps), Ghost((warn@, Some("yellow"@))), color);
    proof { ps = ps.push((warn@, Some("yellow"@))); }
    push_piece(&mut s, " · ", Ghost(ps), Ghost((" · "@, None)), color);
    proof { ps = ps.push((" · "@, None)); }
    let p9 = tag_fail(color);
    push_piece(&mut s, p9.as_str(), Ghost(ps), Ghost(("✖"@, Some("red"@))), color);
    proof { ps = ps.push(("✖"@, Some("red"@))); }
    push_piece(&mut s, " ", Ghost(ps), Ghost((" "@, None)), color);
    proof { ps = ps.push((" "@, None)); }
    let p11 = paint(fail.as_str(), "red", color);
    push_piece(&mut s, p11.as_str(), Ghost(ps), Ghost((fail@, Some("red"@))), color);
    proof { ps = ps.push((fail@, Some("red"@))); }
    push_piece(&mut s, " críticos", Ghost(ps), Ghost((" críticos"@, None)), color);
    proof { ps = ps.push((" críticos"@, None)); }
    proof {
        assert(ps =~= tally_pieces(t.0 as nat, t.1 as nat, t.2 as nat));
    }
    proof {
        if !color {
            reveal_strlit("  ✔ ");
            reveal_strlit("  ");
            reveal_strlit("✔");
            reveal_strlit(" ");
            reveal_strlit(" em ordem · ⚠ ");
            reveal_strlit(" em ordem · ");
            reveal_strlit("⚠");
            reveal_strlit(" · ✖ ");
            reveal_strlit(" · ");
            reveal_strlit("✖");
            assert(s@ =~= tally_line_text(t.0 as nat, t.1 as nat, t.2 as nat));
        }
    }
    s
}

} // verus!
