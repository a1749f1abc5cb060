//! Capabilities of the environment: external tools, KVM, OVMF, memtest86+
//! and the Tauri build headers. The doctor reads this to say exactly what
//! is ready and what is missing — no guessing.

use vstd::prelude::*;

use crate::text::{chars_of, clone_opt, contains_chars, contains_seq, opt_view, str_eq};
use crate::Availability;

verus! {

/// Static description of an external tool.
pub struct ToolSpec {
    pub name: &'static str,
    pub group: &'static str,
    pub purpose: &'static str,
    /// apt package that installs the tool.
    pub apt_package: &'static str,
}

/// The registry of every tool the project uses, one column per array.
/// Groups: core (essential), auth, health, windows, virtual.
/// Tool names, in registry order.
pub const TOOL_NAMES: [&'static str; 30] = [
    "lsblk",
    "blkid",
    "findmnt",
    "efibootmgr",
    "sgdisk",
    "sfdisk",
    "parted",
    "wipefs",
    "mkfs.vfat",
    "mkfs.ext4",
    "mkfs.ntfs",
    "ntfsfix",
    "btrfs",
    "rsync",
    "7z",
    "jq",
    "objcopy",
    "file",
    "curl",
    "wget",
    "pkexec",
    "pkcheck",
    "mokutil",
    "smartctl",
    "nvme",
    "testdisk",
    "wimlib-imagex",
    "mcopy",
    "qemu-system-x86_64",
    "qemu-img",
];

/// Group of each tool.
pub const TOOL_GROUPS: [&'static str; 30] = [
    "core",
    "core",
    "core",
    "core",
    "core",
    "core",
    "core",
    "core",
    "core",
    "core",
    "core",
    "core",
    "core",
    "core",
    "core",
    "core",
    "core",
    "core",
    "core",
    "core",
    "auth",
    "auth",
    "auth",
    "health",
    "health",
    "health",
    "windows",
    "windows",
    "virtual",
    "virtual",
];

/// What each tool is used for.
pub const TOOL_PURPOSES: [&'static str; 30] = [
    "inventário de blocos (disco/partição)",
    "identificação de filesystem",
    "estado de montagens",
    "leituras/entradas de boot UEFI",
    "particionamento GPT (sgdisk)",
    "particionamento scriptável",
    "particionamento interativo/scrippable",
    "limpeza de assinaturas de disco",
    "formatação FAT32 (ESP)",
    "formatação ext4 (Linux)",
    "formatação NTFS (Windows)",
    "reparo leve de NTFS",
    "utilitário Btrfs",
    "cópia de árvores de arquivos (staging)",
    "extração de imagens ISO/WIM",
    "debug/validação de JSON",
    "montagem de UKI (kernel+initrd+cmdline)",
    "identificação de arquivos",
    "download de imagens",
    "download de imagens (alternativa)",
    "execução privilegiada via polkit",
    "verificação de autorização polkit do chamador",
    "estado de Secure Boot/MOK",
    "diagnóstico SMART de discos",
    "diagnóstico NVMe",
    "recuperação de partições",
    "aplicação de WIM/ESD (install.wim)",
    "cópia de arquivos em FAT sem montar (mtools)",
    "VM de testes de instalação real",
    "criação de discos virtuais de teste",
];

/// apt package that installs each tool.
pub const TOOL_APT_PACKAGES: [&'static str; 30] = [
    "util-linux",
    "util-linux",
    "util-linux",
    "efibootmgr",
    "gdisk",
    "util-linux",
    "parted",
    "util-linux",
    "dosfstools",
    "e2fsprogs",
    "ntfs-3g",
    "ntfs-3g",
    "btrfs-progs",
    "rsync",
    "p7zip-full",
    "jq",
    "binutils",
    "file",
    "curl",
    "wget",
    "policykit-1",
    "policykit-1",
    "mokutil",
    "smartmontools",
    "nvme-cli",
    "testdisk",
    "wimtools",
    "mtools",
    "qemu-system-x86",
    "qemu-utils",
];

/// The registry as tool descriptions, in order.
pub fn tool_specs() -> (r: Vec<ToolSpec>)
    ensures
        r@.len() == 30,
        forall|i: int| 0 <= i < 30 ==> (#[trigger] r@[i]).name == TOOL_NAMES[i] && r@[i].group == TOOL_GROUPS[i]
            && r@[i].purpose == TOOL_PURPOSES[i] && r@[i].apt_package == TOOL_APT_PACKAGES[i],
{
    let mut r: Vec<ToolSpec> = Vec::new();
    let mut i: usize = 0;
    while i < 30
        invariant
            i <= 30,
            r@.len() == i,
            forall|k: int| 0 <= k < i ==> (#[trigger] r@[k]).name == TOOL_NAMES[k] && r@[k].group == TOOL_GROUPS[k]
                && r@[k].purpose == TOOL_PURPOSES[k] && r@[k].apt_package == TOOL_APT_PACKAGES[k],
        decreases 30 - i,
    {
        r.push(ToolSpec {
            name: TOOL_NAMES[i],
            group: TOOL_GROUPS[i],
            purpose: TOOL_PURPOSES[i],
            apt_package: TOOL_APT_PACKAGES[i],
        });
        i += 1;
    }
    r
}

/// pkg-config modules the desktop app needs to build.
pub const TAURI_PKG_MODULES: [&'static str; 4] = [
    "webkit2gtk-4.1",
    "gtk+-3.0",
    "libsoup-3.0",
    "javascriptcoregtk-4.1",
];

#[derive(Debug, Clone)]
pub struct ToolStatus {
    pub name: String,
    pub group: &'static str,
    pub purpose: &'static str,
    pub apt_package: &'static str,
    pub found: bool,
    pub path: Option<String>,
}


/// Paths where the OVMF UEFI firmware for VMs may live.
pub const OVMF_PATHS: [&'static str; 3] = [
    "/usr/share/OVMF/OVMF_CODE_4M.fd",
    "/usr/share/OVMF/OVMF_CODE.fd",
    "/usr/share/ovmf/OVMF.fd",
];

/// Paths where the memtest86+ EFI image may live.
pub const MEMTEST_PATHS: [&'static str; 2] = ["/boot/memtest86+x64.efi", "/boot/efi/memtest86+/memtest86+x64.efi"];

/// Where `which` found tool `i` of the registry (`located` lists the
/// results in registry order; a missing result counts as not found).
pub open spec fn located_at(located: Seq<Option<String>>, i: int) -> Option<Seq<char>> {
    if 0 <= i < located.len() {
        opt_view(located[i])
    } else {
        None
    }
}

/// Status of every registered tool, in registry order.
pub fn probe_tools(located: &Vec<Option<String>>) -> (r: Vec<ToolStatus>)
    ensures
        r@.len() == 30,
        forall|i: int| 0 <= i < 30 ==> {
            &&& (#[trigger] r@[i]).name@ == TOOL_NAMES[i]@
            &&& r@[i].group == TOOL_GROUPS[i]
            &&& r@[i].purpose == TOOL_PURPOSES[i]
            &&& r@[i].apt_package == TOOL_APT_PACKAGES[i]
            &&& r@[i].found == located_at(located@, i) is Some
            &&& opt_view(r@[i].path) == located_at(located@, i)
        },
{
    let mut r: Vec<ToolStatus> = Vec::new();
    let mut i: usize = 0;
    while i < 30
        invariant
            i <= 30,
            r@.len() == i,
            forall|k: int| 0 <= k < i ==> {
                &&& (#[trigger] r@[k]).name@ == TOOL_NAMES[k]@
                &&& r@[k].group == TOOL_GROUPS[k]
                &&& r@[k].purpose == TOOL_PURPOSES[k]
                &&& r@[k].apt_package == TOOL_APT_PACKAGES[k]
                &&& r@[k].found == located_at(located@, k) is Some
                &&& opt_view(r@[k].path) == located_at(located@, k)
            },
        decreases 30 - i,
    {
        let path = if i < located.len() {
            clone_opt(&located[i])
        } else {
            None
        };
        let found = match &path {
            Some(_) => true,
            None => false,
        };
        r.push(ToolStatus {
            name: String::from_str(TOOL_NAMES[i]),
            group: TOOL_GROUPS[i],
            purpose: TOOL_PURPOSES[i],
            apt_package: TOOL_APT_PACKAGES[i],
            found,
            path,
        });
        i += 1;
    }
    r
}

/// Count of one group: tools present and tools registered.
#[derive(Debug, Clone)]
pub struct GroupCount {
    pub group: String,
    pub present: usize,
    pub total: usize,
}

/// Position of group `g` among the counts (-1 when absent).
pub open spec fn group_index(r: Seq<(Seq<char>, nat, nat)>, g: Seq<char>) -> int
    decreases r.len(),
{
    if r.len() == 0 {
        -1
    } else if r[0].0 == g {
        0
    } else {
        let k = group_index(r.drop_first(), g);
        if k < 0 { -1 } else { k + 1 }
    }
}

/// Per-group counts of `(group, found)` pairs, groups in order of first
/// appearance, each group once.
pub open spec fn group_counts(tools: Seq<(Seq<char>, bool)>) -> Seq<(Seq<char>, nat, nat)>
    decreases tools.len(),
{
    if tools.len() == 0 {
        seq![]
    } else {
        let r = group_counts(tools.drop_last());
        let (g, f) = tools.last();
        let k = group_index(r, g);
        let add: nat = if f { 1 } else { 0 };
        if k < 0 {
            r.push((g, add, 1))
        } else {
            r.update(k, (g, r[k].1 + add, r[k].2 + 1))
        }
    }
}

/// The `(group, found)` pairs of a tool list.
pub open spec fn tool_groups(tools: Seq<ToolStatus>) -> Seq<(Seq<char>, bool)> {
    tools.map_values(|t: ToolStatus| (t.group@, t.found))
}

/// The abstract form of a count list.
pub open spec fn counts_view(v: Seq<GroupCount>) -> Seq<(Seq<char>, nat, nat)> {
    v.map_values(|c: GroupCount| (c.group@, c.present as nat, c.total as nat))
}

proof fn lemma_group_index(r: Seq<(Seq<char>, nat, nat)>, g: Seq<char>)
    ensures
        -1 <= group_index(r, g) < r.len(),
        group_index(r, g) >= 0 ==> r[group_index(r, g)].0 == g,
        group_index(r, g) >= 0 ==> forall|j: int| 0 <= j < group_index(r, g) ==> r[j].0 != g,
        group_index(r, g) < 0 ==> forall|j: int| 0 <= j < r.len() ==> r[j].0 != g,
    decreases r.len(),
{
    if r.len() > 0 {
        lemma_group_index(r.drop_first(), g);
        assert forall|j: int| 0 < j < r.len() implies r[j] == r.drop_first()[j - 1] by {}
    }
}

proof fn lemma_group_counts_bounds(tools: Seq<(Seq<char>, bool)>)
    ensures
        forall|k: int| 0 <= k < group_counts(tools).len() ==> (#[trigger] group_counts(tools)[k]).1
            <= group_counts(tools)[k].2 && group_counts(tools)[k].2 <= tools.len(),
        group_counts(tools).len() <= tools.len(),
    decreases tools.len(),
{
    if tools.len() > 0 {
        lemma_group_counts_bounds(tools.drop_last());
        lemma_group_index(group_counts(tools.drop_last()), tools.last().0);
    }
}

/// How many of the tools belong to group `g`.
pub open spec fn group_total(tools: Seq<(Seq<char>, bool)>, g: Seq<char>) -> nat
    decreases tools.len(),
{
    if tools.len() == 0 {
        0
    } else {
        group_total(tools.drop_last(), g) + if tools.last().0 == g { 1nat } else { 0nat }
    }
}

/// How many of the tools of group `g` were found.
pub open spec fn group_present(tools: Seq<(Seq<char>, bool)>, g: Seq<char>) -> nat
    decreases tools.len(),
{
    if tools.len() == 0 {
        0
    } else {
        group_present(tools.drop_last(), g) + if tools.last().0 == g && tools.last().1 {
            1nat
        } else {
            0nat
        }
    }
}

proof fn lemma_present_le_total(tools: Seq<(Seq<char>, bool)>, g: Seq<char>)
    ensures
        group_present(tools, g) <= group_total(tools, g),
    decreases tools.len(),
{
    if tools.len() > 0 {
        lemma_present_le_total(tools.drop_last(), g);
    }
}

/// The group counts are exact: every group that some tool belongs to has
/// one count, no group has two, and each count is the number of its tools
/// found and the number of its tools.
pub proof fn law_group_counts_are_exact(tools: Seq<(Seq<char>, bool)>)
    ensures
        forall|k: int| 0 <= k < group_counts(tools).len() ==> {
            &&& (#[trigger] group_counts(tools)[k]).1 == group_present(tools, group_counts(tools)[k].0)
            &&& group_counts(tools)[k].2 == group_total(tools, group_counts(tools)[k].0)
            &&& group_counts(tools)[k].2 > 0
        },
        forall|j: int, k: int| 0 <= j < k < group_counts(tools).len() ==> (#[trigger] group_counts(tools)[j]).0
            != (#[trigger] group_counts(tools)[k]).0,
        forall|h: Seq<char>| #[trigger] group_total(tools, h) > 0 ==> group_index(group_counts(tools), h) >= 0,
    decreases tools.len(),
{
    if tools.len() > 0 {
        let prev = tools.drop_last();
        law_group_counts_are_exact(prev);
        let r = group_counts(prev);
        let (g, f) = tools.last();
        lemma_group_index(r, g);
        let i = group_index(r, g);
        let c = group_counts(tools);
        lemma_group_index(c, g);
        assert forall|k: int| 0 <= k < c.len() implies {
            &&& (#[trigger] c[k]).1 == group_present(tools, c[k].0)
            &&& c[k].2 == group_total(tools, c[k].0)
            &&& c[k].2 > 0
        } by {
            if k < r.len() && (i < 0 || k != i) {
                assert(c[k] == r[k]);
                if i >= 0 {
                    if k < i {
                        assert(r[k].0 != r[i].0);
                    } else {
                        assert(r[i].0 != r[k].0);
                    }
                }
                assert(r[k].0 != g);
                assert(r[k].1 == group_present(prev, r[k].0));
            } else if k < r.len() {
                assert(k == i);
                assert(r[i].1 == group_present(prev, g));
            } else {
                assert(i < 0);
                lemma_present_le_total(prev, g);
                if group_total(prev, g) > 0 {
                    assert(group_index(r, g) >= 0);
                }
            }
        }
        if i < 0 {
            assert(group_total(prev, g) == 0);
            assert forall|h: Seq<char>| #[trigger] group_total(tools, h) > 0 implies group_index(c, h) >= 0 by {
                lemma_group_index(c, h);
                lemma_group_index(r, h);
                if h == g {
                    assert(c[r.len() as int].0 == h);
                } else {
                    assert(group_total(prev, h) > 0);
                    let m = group_index(r, h);
                    assert(c[m].0 == h);
                }
            }
        } else {
            assert forall|h: Seq<char>| #[trigger] group_total(tools, h) > 0 implies group_index(c, h) >= 0 by {
                lemma_group_index(c, h);
                lemma_group_index(r, h);
                if h == g {
                    assert(c[i].0 == h);
                } else {
                    assert(group_total(prev, h) > 0);
                    let m = group_index(r, h);
                    assert(c[m].0 == h);
                }
            }
        }
    }
}

proof fn lemma_total_prefix(t: Seq<(Seq<char>, bool)>, n: int, g: Seq<char>)
    requires
        0 <= n <= t.len(),
    ensures
        group_total(t.take(n), g) == if n == 0 { 0nat } else { group_total(t.take(n - 1), g) + if t[n - 1].0
            == g { 1nat } else { 0nat } },
{
    if n > 0 {
        assert(t.take(n).drop_last() =~= t.take(n - 1));
    }
}

proof fn lemma_core_prefix(tools: Seq<ToolStatus>, n: int)
    requires
        tools.len() == 30,
        0 <= n <= 30,
        forall|i: int| 0 <= i < 30 ==> (#[trigger] tools[i]).group == TOOL_GROUPS[i],
    ensures
        group_total(tool_groups(tools).take(n), "core"@) == if n <= 20 { n as nat } else { 20nat },
    decreases n,
{
    if n > 0 {
        let t = tool_groups(tools);
        lemma_core_prefix(tools, n - 1);
        lemma_total_prefix(t, n, "core"@);
        reveal_strlit("core");
        reveal_strlit("auth");
        reveal_strlit("health");
        reveal_strlit("windows");
        reveal_strlit("virtual");
        assert(t[n - 1].0 == TOOL_GROUPS[n - 1]@);
        if n - 1 >= 20 {
            assert(t[n - 1].0[0] != "core"@[0]);
        }
    }
}

/// In a report of the registry's tools, the `core` group is always
/// counted, with twenty tools.
pub proof fn law_core_group_has_twenty_tools(tools: Seq<ToolStatus>)
    requires
        tools.len() == 30,
        forall|i: int| 0 <= i < 30 ==> (#[trigger] tools[i]).group == TOOL_GROUPS[i],
    ensures
        group_index(group_counts(tool_groups(tools)), "core"@) >= 0,
        group_counts(tool_groups(tools))[group_index(group_counts(tool_groups(tools)), "core"@)].2 == 20,
{
    let t = tool_groups(tools);
    lemma_core_prefix(tools, 30);
    assert(t.take(30) =~= t);
    law_group_counts_are_exact(t);
    lemma_group_index(group_counts(t), "core"@);
}

/// Per-group summary of a tool list: `(present, total)` for each group,
/// groups in order of first appearance.
pub fn group_summary(tools: &Vec<ToolStatus>) -> (r: Vec<GroupCount>)
    ensures
        counts_view(r@) == group_counts(tool_groups(tools@)),
        forall|k: int| 0 <= k < r@.len() ==> (#[trigger] r@[k]).present <= r@[k].total,
{
    let ghost tg = tool_groups(tools@);
    let mut r: Vec<GroupCount> = Vec::new();
    let mut i: usize = 0;
    while i < tools.len()
        invariant
            i <= tools.len(),
            tg == tool_groups(tools@),
            counts_view(r@) == group_counts(tg.take(i as int)),
        decreases tools.len() - i,
    {
        proof {
            assert(tg.take(i + 1).drop_last() =~= tg.take(i as int));
            lemma_group_counts_bounds(tg.take(i as int));
            lemma_group_index(counts_view(r@), tools@[i as int].group@);
        }
        let t = &tools[i];
        let mut k: usize = 0;
        while k < r.len() && !str_eq(r[k].group.as_str(), t.group)
            invariant
                k <= r.len(),
                forall|j: int| 0 <= j < k ==> (#[trigger] r@[j]).group@ != t.group@,
            decreases r.len() - k,
        {
            k += 1;
        }
        let ghost cv = counts_view(r@);
        proof {
            assert forall|j: int| 0 <= j < k implies (#[trigger] cv[j]).0 != t.group@ by {
                assert(cv[j].0 == r@[j].group@);
            }
            if k < r.len() {
                assert(cv[k as int].0 == t.group@);
            }
            assert(tg.take(i + 1).last() == (t.group@, t.found));
        }
        let add: usize = if t.found { 1 } else { 0 };
        if k < r.len() {
            proof {
                assert(group_index(cv, t.group@) == k as int);
                assert(cv[k as int].2 <= i);
            }
            let c = GroupCount {
                group: String::from_str(t.group),
                present: r[k].present + add,
                total: r[k].total + 1,
            };
            r.set(k, c);
        } else {
            proof {
                assert(group_index(cv, t.group@) < 0);
            }
            r.push(GroupCount { group: String::from_str(t.group), present: add, total: 1 });
        }
        proof {
            assert(counts_view(r@) =~= group_counts(tg.take(i + 1)));
        }
        i += 1;
    }
    proof {
        assert(tg.take(tools.len() as int) =~= tg);
        lemma_group_counts_bounds(tg);
        assert forall|k: int| 0 <= k < r@.len() implies (#[trigger] r@[k]).present <= r@[k].total by {
            assert(counts_view(r@)[k] == (r@[k].group@, r@[k].present as nat, r@[k].total as nat));
        }
    }
    r
}

/// What the environment offers.
#[derive(Debug, Clone)]
pub struct CapabilityReport {
    pub tools: Vec<ToolStatus>,
    /// Per-group `(present, total)`.
    pub groups: Vec<GroupCount>,
    pub kvm: Availability,
    pub ovmf: Availability,
    pub memtest86: Availability,
    /// The Tauri build headers (webkit2gtk-4.1, gtk+-3.0, libsoup-3.0,
    /// javascriptcoregtk-4.1) are installed: the desktop app can be built.
    pub tauri_build_ready: bool,
}

/// An availability that is `Unavailable` with exactly this code and reason.
pub open spec fn unavailable_with(a: Availability, code: Seq<char>, reason: Seq<char>) -> bool {
    a matches Availability::Unavailable { reason_code, reason: r } && reason_code@ == code && r@ == reason
}

/// Assembles the report. `located` are the `which` results of the
/// registry, in order; `kvm_present` says whether `/dev/kvm` exists;
/// `ovmf_found` / `memtest_found` whether one of [`OVMF_PATHS`] /
/// [`MEMTEST_PATHS`] exists; `pkg_modules` the pkg-config result of each
/// of [`TAURI_PKG_MODULES`].
pub fn probe_capabilities(
    located: &Vec<Option<String>>,
    kvm_present: bool,
    ovmf_found: bool,
    memtest_found: bool,
    pkg_modules: &Vec<bool>,
) -> (rep: CapabilityReport)
    ensures
        rep.tools@.len() == 30,
        forall|i: int| 0 <= i < 30 ==> {
            &&& (#[trigger] rep.tools@[i]).name@ == TOOL_NAMES[i]@
            &&& rep.tools@[i].group == TOOL_GROUPS[i]
            &&& rep.tools@[i].found == located_at(located@, i) is Some
            &&& opt_view(rep.tools@[i].path) == located_at(located@, i)
        },
        counts_view(rep.groups@) == group_counts(tool_groups(rep.tools@)),
        kvm_present ==> rep.kvm is Available,
        !kvm_present ==> unavailable_with(rep.kvm, "SF-DEP-001"@,
            "/dev/kvm ausente — testes em VM ficarão lentos (emulação) ou indisponíveis"@),
        ovmf_found ==> rep.ovmf is Available,
        !ovmf_found ==> unavailable_with(rep.ovmf, "SF-DEP-002"@,
            "firmware UEFI OVMF não encontrado (pacote ovmf)"@),
        memtest_found ==> rep.memtest86 is Available,
        !memtest_found ==> unavailable_with(rep.memtest86, "SF-DEP-003"@,
            "memtest86+ não instalado (pacote memtest86+)"@),
        rep.tauri_build_ready == forall|k: int| 0 <= k < pkg_modules@.len() ==> #[trigger] pkg_modules@[k],
{
    let tools = probe_tools(located);
    let groups = group_summary(&tools);
    let kvm = if kvm_present {
        Availability::Available
    } else {
        Availability::unavailable(
            "SF-DEP-001",
            "/dev/kvm ausente — testes em VM ficarão lentos (emulação) ou indisponíveis",
        )
    };
    let ovmf = if ovmf_found {
        Availability::Available
    } else {
        Availability::unavailable("SF-DEP-002", "firmware UEFI OVMF não encontrado (pacote ovmf)")
    };
    let memtest86 = if memtest_found {
        Availability::Available
    } else {
        Availability::unavailable("SF-DEP-003", "memtest86+ não instalado (pacote memtest86+)")
    };
    let mut ready = true;
    let mut k: usize = 0;
    while k < pkg_modules.len()
        invariant
            k <= pkg_modules.len(),
            ready == forall|j: int| 0 <= j < k ==> #[trigger] pkg_modules@[j],
        decreases pkg_modules.len() - k,
    {
        ready = ready && pkg_modules[k];
        k += 1;
    }
    CapabilityReport { tools, groups, kvm, ovmf, memtest86, tauri_build_ready: ready }
}

/// `s` with every NUL replaced by a space (how `/proc/*/cmdline`
/// separates arguments).
pub open spec fn nul_to_space(s: Seq<char>) -> Seq<char> {
    s.map_values(|c: char| if c == '\0' { ' ' } else { c })
}

/// Marker of a polkit dialog agent in a command line (MATE, GNOME, KDE).
/// `polkit-agent-helper` (the root checker spawned during authentication)
/// does not carry it.
pub const AGENT_MARKER: &'static str = "authentication-agent";

/// Is a polkit dialog agent running in the session? `cmdlines` are the
/// full `/proc/*/cmdline` contents (`comm` truncates at 15 characters).
/// Without an agent the desktop app cannot show the password dialog.
pub fn polkit_dialog_agent_present(cmdlines: &Vec<String>) -> (b: bool)
    ensures
        b == exists|k: int| 0 <= k < cmdlines@.len() && contains_seq(nul_to_space(#[trigger] cmdlines@[k]@), AGENT_MARKER@),
{
    let marker = chars_of(AGENT_MARKER);
    let mut i: usize = 0;
    while i < cmdlines.len()
        invariant
            i <= cmdlines.len(),
            marker@ == AGENT_MARKER@,
            forall|k: int| 0 <= k < i ==> !contains_seq(nul_to_space(#[trigger] cmdlines@[k]@), AGENT_MARKER@),
        decreases cmdlines.len() - i,
    {
        let raw = chars_of(cmdlines[i].as_str());
        let mut full: Vec<char> = Vec::new();
        let mut j: usize = 0;
        while j < raw.len()
            invariant
                j <= raw.len(),
                full@ == nul_to_space(raw@.take(j as int)),
            decreases raw.len() - j,
        {
            full.push(if raw[j] == '\0' { ' ' } else { raw[j] });
            proof {
                assert(full@ =~= nul_to_space(raw@.take(j + 1)));
            }
            j += 1;
        }
        proof {
            assert(raw@.take(raw.len() as int) =~= raw@);
        }
        if contains_chars(full.as_slice(), marker.as_slice()) {
            return true;
        }
        i += 1;
    }
    false
}

} // verus!
