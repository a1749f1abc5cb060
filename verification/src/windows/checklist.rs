//! Windows 11 installation checklist. Every item is a real probe of this
//! machine: what is missing is listed with its status and what to do.

use vstd::prelude::*;

use crate::capability::ToolStatus;
use crate::error::SysforgeError;
use crate::order::{lemma_sort_order, sort_order, sorted_desc, stable_order_desc};
use crate::text::{
    clone_opt, clone_string, dec, fold_contains, fold_contains_str, fold_ends_with, fold_ends_with_str,
    opt_view, push_dec, push_str, str_eq,
};
use crate::ui::{f64_value, f64_value_of, round_half_even, round_half_even_of};
use crate::windows::media::{MediaV, RemovableMedia};
use crate::windows::unattend::WINDOWS11_DOWNLOAD_URL;

verus! {

#[derive(Debug, Clone, Copy, PartialEq, Eq, Structural)]
pub enum ItemStatus {
    /// Ready (serialized as "ok").
    Pass,
    Warn,
    Fail,
    Info,
}

#[derive(Debug, Clone)]
pub struct ChecklistItem {
    pub id: String,
    pub status: ItemStatus,
    pub title: String,
    pub detail: String,
    pub hint: Option<String>,
}

/// Abstract checklist item.
#[verifier::ext_equal]
pub struct ItemV {
    pub id: Seq<char>,
    pub status: ItemStatus,
    pub title: Seq<char>,
    pub detail: Seq<char>,
    pub hint: Option<Seq<char>>,
}

impl View for ChecklistItem {
    type V = ItemV;

    open spec fn view(&self) -> ItemV {
        ItemV { id: self.id@, status: self.status, title: self.title@, detail: self.detail@, hint: opt_view(self.hint) }
    }
}

#[derive(Debug, Clone)]
pub struct IsoFile {
    pub path: String,
    pub name: String,
    pub size_bytes: u64,
    /// The path suggests Windows 11.
    pub looks_like_windows11: bool,
}

/// Abstract ISO file.
#[verifier::ext_equal]
pub struct IsoV {
    pub path: Seq<char>,
    pub name: Seq<char>,
    pub size_bytes: u64,
    pub looks_like_windows11: bool,
}

impl View for IsoFile {
    type V = IsoV;

    open spec fn view(&self) -> IsoV {
        IsoV { path: self.path@, name: self.name@, size_bytes: self.size_bytes, looks_like_windows11: self.looks_like_windows11 }
    }
}

#[derive(Debug, Clone)]
pub struct WindowsChecklist {
    pub items: Vec<ChecklistItem>,
    pub isos: Vec<IsoFile>,
    /// Removable media found (Ventoy sticks marked).
    pub media: Vec<RemovableMedia>,
    /// The aggregated next step.
    pub recommendation: String,
}

// ------------------------------------------------------------------ ISOs

/// Does the name look like Windows 11? (`win`, and `11` or `win11`, and
/// not a `.zip`; ASCII case ignored.)
pub open spec fn looks_like_win11(name: Seq<char>) -> bool {
    fold_contains(name, "win"@) && (fold_contains(name, "11"@) || fold_contains(name, "win11"@))
        && !fold_ends_with(name, ".zip"@)
}

/// Exec form of [`looks_like_win11`].
pub fn looks_like_windows11(name: &str) -> (b: bool)
    ensures
        b == looks_like_win11(name@),
{
    fold_contains_str(name, "win") && (fold_contains_str(name, "11") || fold_contains_str(name, "win11"))
        && !fold_ends_with_str(name, ".zip")
}

/// A real Windows 11 ISO is larger than 4 GiB; smaller files are stubs.
pub const ISO_MIN_BYTES: u64 = 3221225472;

/// A directory entry that is kept as an ISO: `.iso` name (any ASCII
/// case) of at least 3 GiB.
pub open spec fn iso_kept(e: (String, String, u64)) -> bool {
    fold_ends_with(e.1@, ".iso"@) && e.2 >= ISO_MIN_BYTES
}

/// The ISO files among `(path, file name, size)` entries, in order.
pub open spec fn kept_isos(entries: Seq<(String, String, u64)>) -> Seq<IsoV>
    decreases entries.len(),
{
    if entries.len() == 0 {
        seq![]
    } else {
        let rest = kept_isos(entries.drop_last());
        let e = entries.last();
        if iso_kept(e) {
            rest.push(IsoV { path: e.0@, name: e.1@, size_bytes: e.2, looks_like_windows11: looks_like_win11(e.0@) })
        } else {
            rest
        }
    }
}

/// The sizes of a list of ISOs.
pub open spec fn iso_sizes(s: Seq<IsoV>) -> Seq<u64> {
    s.map_values(|i: IsoV| i.size_bytes)
}

/// `s` taken in the order `order`.
pub open spec fn permuted(s: Seq<IsoV>, order: Seq<int>) -> Seq<IsoV> {
    order.map_values(|k: int| s[k])
}

/// `Vec::dedup_by` on equal paths: an element is dropped when its path
/// equals that of the last element kept.
pub open spec fn dedup_paths(s: Seq<IsoV>) -> Seq<IsoV>
    decreases s.len(),
{
    if s.len() == 0 {
        seq![]
    } else {
        let r = dedup_paths(s.drop_last());
        if r.len() > 0 && r.last().path == s.last().path {
            r
        } else {
            r.push(s.last())
        }
    }
}

/// The ISO list: kept entries, largest first (ties in listing order),
/// consecutive duplicates of a path dropped.
pub open spec fn iso_list(entries: Seq<(String, String, u64)>) -> Seq<IsoV> {
    let k = kept_isos(entries);
    dedup_paths(permuted(k, sort_order(iso_sizes(k), k.len())))
}

proof fn lemma_dedup_len(s: Seq<IsoV>)
    ensures
        dedup_paths(s).len() <= s.len(),
    decreases s.len(),
{
    if s.len() > 0 {
        lemma_dedup_len(s.drop_last());
    }
}

/// Selects the ISO files among directory entries `(path, file name,
/// size)`: `.iso` names of at least 3 GiB, largest first, duplicates of a
/// path next to each other dropped.
pub fn find_isos(entries: &Vec<(String, String, u64)>) -> (r: Vec<IsoFile>)
    ensures
        r@.map_values(|i: IsoFile| i@) == iso_list(entries@),
{
    let mut kept: Vec<IsoFile> = Vec::new();
    let mut i: usize = 0;
    while i < entries.len()
        invariant
            i <= entries.len(),
            kept@.map_values(|f: IsoFile| f@) == kept_isos(entries@.take(i as int)),
        decreases entries.len() - i,
    {
        proof {
            assert(entries@.take(i + 1).drop_last() =~= entries@.take(i as int));
            assert(entries@.take(i + 1).last() == entries@[i as int]);
        }
        let e = &entries[i];
        if fold_ends_with_str(e.1.as_str(), ".iso") && e.2 >= ISO_MIN_BYTES {
            kept.push(IsoFile {
                path: clone_string(&e.0),
                name: clone_string(&e.1),
                size_bytes: e.2,
                looks_like_windows11: looks_like_windows11(e.0.as_str()),
            });
        }
        proof {
            assert(kept@.map_values(|f: IsoFile| f@) =~= kept_isos(entries@.take(i + 1)));
        }
        i += 1;
    }
    proof {
        assert(entries@.take(entries.len() as int) =~= entries@);
    }
    let ghost k = kept@.map_values(|f: IsoFile| f@);
    let mut sizes: Vec<u64> = Vec::new();
    let mut j: usize = 0;
    while j < kept.len()
        invariant
            j <= kept.len(),
            k == kept@.map_values(|f: IsoFile| f@),
            sizes@ == iso_sizes(k).take(j as int),
        decreases kept.len() - j,
    {
        sizes.push(kept[j].size_bytes);
        proof {
            assert(sizes@ =~= iso_sizes(k).take(j + 1));
        }
        j += 1;
    }
    proof {
        assert(sizes@ =~= iso_sizes(k));
    }
    let order = stable_order_desc(&sizes);
    let ghost ord = order@.map_values(|x: usize| x as int);
    proof {
        lemma_sort_order(iso_sizes(k), k.len());
        assert forall|a: int| 0 <= a < ord.len() implies 0 <= #[trigger] ord[a] < k.len() by {
            let m = sort_order(iso_sizes(k), k.len()).to_multiset();
            assert(ord.contains(ord[a]));
            assert(m.count(ord[a]) > 0) by {
                broadcast use vstd::seq_lib::group_to_multiset_ensures;
            }
            assert(Seq::new(k.len(), |x: int| x).to_multiset().count(ord[a]) > 0);
            assert(Seq::new(k.len(), |x: int| x).contains(ord[a])) by {
                broadcast use vstd::seq_lib::group_to_multiset_ensures;
            }
        }
    }
    let ghost sorted = permuted(k, ord);
    let mut out: Vec<IsoFile> = Vec::new();
    let mut m: usize = 0;
    while m < order.len()
        invariant
            m <= order.len(),
            ord == order@.map_values(|x: usize| x as int),
            k == kept@.map_values(|f: IsoFile| f@),
            forall|a: int| 0 <= a < ord.len() ==> 0 <= #[trigger] ord[a] < k.len(),
            sorted == permuted(k, ord),
            out@.map_values(|f: IsoFile| f@) == dedup_paths(sorted.take(m as int)),
        decreases order.len() - m,
    {
        proof {
            assert(sorted.take(m + 1).drop_last() =~= sorted.take(m as int));
            assert(sorted.take(m + 1).last() == k[ord[m as int]]);
            assert(ord[m as int] == order@[m as int] as int);
        }
        let f = &kept[order[m]];
        let n = out.len();
        let dup = n > 0 && str_eq(out[n - 1].path.as_str(), f.path.as_str());
        proof {
            if n > 0 {
                assert(out@.map_values(|x: IsoFile| x@).last() == out@[n - 1]@);
            }
        }
        if !dup {
            out.push(IsoFile {
                path: clone_string(&f.path),
                name: clone_string(&f.name),
                size_bytes: f.size_bytes,
                looks_like_windows11: f.looks_like_windows11,
            });
        }
        proof {
            assert(out@.map_values(|x: IsoFile| x@) =~= dedup_paths(sorted.take(m + 1)));
        }
        m += 1;
    }
    proof {
        assert(sorted.take(order.len() as int) =~= sorted);
    }
    out
}


// ----------------------------------------------------------------- items

/// Everything the checklist reads from the machine besides the ISO list,
/// the media and the tools.
#[derive(Debug, Clone)]
pub struct ChecklistProbe {
    /// The machine boots in UEFI mode.
    pub is_uefi: bool,
    pub cpu_model: Option<String>,
    pub tpm_present: bool,
    /// Secure Boot state (`None` when unreadable).
    pub secure_boot: Option<bool>,
    /// The firmware announces BOOT_TO_FIRMWARE_UI.
    pub firmware_reboot: bool,
    /// The system daemon answers on its socket.
    pub daemon_up: bool,
}

/// One GiB.
pub const GIB: u64 = 1073741824;

/// The size in GiB that `format!("{:.0}", b as f64 / 2^30)` prints: the
/// `f64` value of `b` over 2^30, rounded half to even.
pub open spec fn gib_rounded(b: nat) -> nat {
    round_half_even(f64_value(b), GIB as nat)
}

/// `"{n} GiB"` with `n` the rounded size in GiB.
pub open spec fn fmt_gb_text(b: nat) -> Seq<char> {
    dec(gib_rounded(b)) + " GiB"@
}

/// Size in GiB, rounded (see [`gib_rounded`]).
pub fn fmt_gb(b: u64) -> (s: String)
    ensures
        s@ == fmt_gb_text(b as nat),
{
    let x = f64_value_of(b);
    let n = round_half_even_of(x, GIB as u128);
    let mut s = String::new();
    push_dec(&mut s, n as u64);
    push_str(&mut s, " GiB");
    s
}

/// "ok" or "ausente".
pub open spec fn yn_text(b: bool) -> Seq<char> {
    if b { "ok"@ } else { "ausente"@ }
}

pub fn yn(b: bool) -> (s: &'static str)
    ensures
        s@ == yn_text(b),
{
    if b { "ok" } else { "ausente" }
}

pub open spec fn item_v(id: Seq<char>, status: ItemStatus, title: Seq<char>, detail: Seq<char>, hint: Option<Seq<char>>) -> ItemV {
    ItemV { id, status, title, detail, hint }
}

fn item(id: &str, status: ItemStatus, title: &str, detail: String, hint: Option<String>) -> (i: ChecklistItem)
    ensures
        i@ == item_v(id@, status, title@, detail@, opt_view(hint)),
{
    ChecklistItem { id: String::from_str(id), status, title: String::from_str(title), detail, hint }
}

pub const HINT_REQUIREMENTS: &'static str = "Hardware antigo é instalável com o bypass LabConfig, que o SYSFORGE inclui no autounattend. Você assume a responsabilidade pelo suporte futuro da Microsoft.";

/// Item 1: UEFI.
pub open spec fn uefi_item(p: ChecklistProbe) -> ItemV {
    if p.is_uefi {
        item_v("uefi"@, ItemStatus::Pass, "UEFI nativo"@, "firmware EFI presente — instalação no modo moderno"@, None)
    } else {
        item_v("uefi"@, ItemStatus::Fail, "UEFI nativo"@, "máquina não boota em UEFI"@, Some("O fluxo automático exige UEFI."@))
    }
}

/// Item 2: the official requirements (CPU, TPM).
pub open spec fn requirements_item(p: ChecklistProbe) -> ItemV {
    item_v(
        "requisitos"@,
        if p.tpm_present { ItemStatus::Info } else { ItemStatus::Warn },
        "Requisitos oficiais do Windows 11"@,
        "CPU: "@ + (match p.cpu_model { Some(c) => c@, None => Seq::empty() }) + " · TPM: "@
            + (if p.tpm_present { "detectado"@ } else { "não detectado"@ }),
        Some(HINT_REQUIREMENTS@),
    )
}

/// Item 3: Secure Boot.
pub open spec fn secure_boot_item(p: ChecklistProbe) -> ItemV {
    match p.secure_boot {
        Some(true) => item_v("secureboot"@, ItemStatus::Info, "Secure Boot"@, "habilitado — instalação oficial flui"@, None),
        Some(false) => item_v("secureboot"@, ItemStatus::Info, "Secure Boot"@, "desabilitado — bypass incluído no unattend"@, None),
        None => item_v("secureboot"@, ItemStatus::Warn, "Secure Boot"@, "estado ilegível"@, None),
    }
}

/// Position of the first ISO that looks like Windows 11 (-1 when none).
pub open spec fn first_win11(isos: Seq<IsoV>) -> int
    decreases isos.len(),
{
    if isos.len() == 0 {
        -1
    } else if isos[0].looks_like_windows11 {
        0
    } else {
        let k = first_win11(isos.drop_first());
        if k < 0 { -1 } else { k + 1 }
    }
}

/// Item 4: the Windows 11 ISO.
pub open spec fn iso_item(isos: Seq<IsoV>) -> ItemV {
    let k = first_win11(isos);
    if k >= 0 {
        let iso = isos[k];
        item_v("iso"@, ItemStatus::Pass, "ISO do Windows 11"@,
            iso.name + " · "@ + dec((iso.size_bytes / GIB) as nat) + " GB"@, Some(iso.path))
    } else if isos.len() > 0 {
        item_v("iso"@, ItemStatus::Warn, "ISO do Windows 11"@,
            "nenhum ISO com cara de Win11; outros encontrados: "@ + dec(isos.len()),
            Some("Baixe o oficial: "@ + WINDOWS11_DOWNLOAD_URL@))
    } else {
        item_v("iso"@, ItemStatus::Fail, "ISO do Windows 11"@, "nenhuma ISO encontrada nos diretórios padrão"@,
            Some("Baixe o oficial em "@ + WINDOWS11_DOWNLOAD_URL@ + " e salve em ~/Downloads"@))
    }
}

/// Item 5: the removable medium (the first one), Ventoy or not.
pub open spec fn media_item(media: Seq<MediaV>) -> ItemV {
    if media.len() == 0 {
        item_v("media"@, ItemStatus::Fail, "Mídia USB"@, "nenhum pendrive/SD detectado"@,
            Some("Conecte um pendrive (≥ 8 GiB) — Ventoy recomendado."@))
    } else {
        let m = media[0];
        if exists|k: int| 0 <= k < media.len() && (#[trigger] media[k]).is_ventoy {
            item_v("media"@, ItemStatus::Pass, "Mídia USB"@,
                m.name + " · "@ + (match m.model { Some(x) => x, None => "—"@ }) + " · "@ + fmt_gb_text(m.size_bytes as nat)
                    + " · Ventoy"@ + (match m.mounted_at { Some(x) => " montado em "@ + x, None => Seq::empty() }),
                None)
        } else {
            item_v("media"@, ItemStatus::Warn, "Mídia USB"@,
                m.name + " · "@ + fmt_gb_text(m.size_bytes as nat)
                    + " presente, mas SEM Ventoy — cópia FAT32 pode falhar (install.wim > 4 GiB)"@,
                Some("Recomendado: instale Ventoy no pendrive (você já usa Ventoy) e copie a ISO + autounattend."@))
        }
    }
}

/// Item 6: a USB entry in the firmware (for BootNext). `usb_entry` is the
/// result of reading the firmware state: the id of its USB entry, if any.
pub open spec fn usb_entry_item(usb_entry: Result<Option<String>, SysforgeError>) -> ItemV {
    match usb_entry {
        Ok(Some(id)) => item_v("usb_entry"@, ItemStatus::Pass, "Entrada USB no firmware"@,
            "ID "@ + id@ + " disponível para BootNext"@, None),
        Ok(None) => item_v("usb_entry"@, ItemStatus::Warn, "Entrada USB no firmware"@,
            "sem entrada USB dedicada — boot manual via menu F12/F9"@, None),
        Err(e) => item_v("usb_entry"@, ItemStatus::Warn, "Entrada USB no firmware"@,
            "efibootmgr falhou: "@ + e.code@, None),
    }
}

/// Item 7: reboot straight into the firmware setup.
pub open spec fn firmware_reboot_item(p: ChecklistProbe) -> ItemV {
    if p.firmware_reboot {
        item_v("firmware_reboot"@, ItemStatus::Pass, "Reboot direto na BIOS (OsIndications)"@,
            "firmware suporta BOOT_TO_FIRMWARE_UI"@, None)
    } else {
        item_v("firmware_reboot"@, ItemStatus::Warn, "Reboot direto na BIOS"@,
            "firmware não anuncia suporte — entrada manual (F2/Del)"@, None)
    }
}

/// A tool of that name was found.
pub open spec fn tool_found(tools: Seq<ToolStatus>, name: Seq<char>) -> bool {
    exists|k: int| 0 <= k < tools.len() && (#[trigger] tools[k]).name@ == name && tools[k].found
}

/// Item 8: media tools.
pub open spec fn tools_item(tools: Seq<ToolStatus>) -> ItemV {
    let has7z = tool_found(tools, "7z"@);
    let rsync = tool_found(tools, "rsync"@);
    let wimlib = tool_found(tools, "wimlib-imagex"@);
    item_v("tools"@, if has7z && rsync { ItemStatus::Pass } else { ItemStatus::Fail }, "Ferramentas de mídia"@,
        "7z: "@ + yn_text(has7z) + " · rsync: "@ + yn_text(rsync) + " · wimlib (split >4GiB): "@ + yn_text(wimlib),
        Some("sudo apt install p7zip-full rsync wimtools (ou bash scripts/bootstrap-linux.sh)"@))
}

/// Item 9: the system daemon.
pub open spec fn daemon_item(p: ChecklistProbe) -> ItemV {
    if p.daemon_up {
        item_v("daemon"@, ItemStatus::Pass, "Daemon sysforge-osd (system)"@, "privilégios prontos"@, None)
    } else {
        item_v("daemon"@, ItemStatus::Warn, "Daemon sysforge-osd (system)"@,
            "não está rodando — BootNext/reboot precisam dele"@,
            Some("Rode `sysforge daemon system` e autorize no diálogo do polkit (sua senha)."@))
    }
}

/// The nine items, in order.
pub open spec fn checklist_items(
    p: ChecklistProbe,
    isos: Seq<IsoV>,
    media: Seq<MediaV>,
    usb_entry: Result<Option<String>, SysforgeError>,
    tools: Seq<ToolStatus>,
) -> Seq<ItemV> {
    seq![
        uefi_item(p),
        requirements_item(p),
        secure_boot_item(p),
        iso_item(isos),
        media_item(media),
        usb_entry_item(usb_entry),
        firmware_reboot_item(p),
        tools_item(tools),
        daemon_item(p),
    ]
}

pub const REC_FIX: &'static str = "Corrija os itens vermelhos antes de prosseguir (cada um tem instruções).";
pub const REC_DAEMON: &'static str = "Próximo passo: `sysforge daemon system` (autorize com sua senha no polkit) e rode `sysforge install --apply`.";
pub const REC_READY: &'static str = "Tudo pronto: rode `sysforge install --apply` para gerar autounattend, armar BootNext e reiniciar.";

/// The aggregated next step: fix the failures first, then start the
/// daemon, else go.
pub open spec fn recommendation_of(items: Seq<ItemV>) -> Seq<char> {
    if exists|k: int| 0 <= k < items.len() && (#[trigger] items[k]).status == ItemStatus::Fail {
        REC_FIX@
    } else if exists|k: int| 0 <= k < items.len() && (#[trigger] items[k]).id == "daemon"@ && items[k].status == ItemStatus::Warn {
        REC_DAEMON@
    } else {
        REC_READY@
    }
}

/// The media-tools item passes exactly when both 7z (to extract the ISO)
/// and rsync are found, whatever wimlib and the other probes say; when
/// either is missing the item fails and the checklist's advice is to fix
/// the red items first.
pub proof fn law_tools_item_needs_7z_and_rsync(
    p: ChecklistProbe,
    isos: Seq<IsoV>,
    media: Seq<MediaV>,
    usb_entry: Result<Option<String>, SysforgeError>,
    tools: Seq<ToolStatus>,
)
    ensures
        checklist_items(p, isos, media, usb_entry, tools)[7].id == "tools"@,
        (checklist_items(p, isos, media, usb_entry, tools)[7].status == ItemStatus::Pass) <==> (tool_found(
            tools,
            "7z"@,
        ) && tool_found(tools, "rsync"@)),
        !(tool_found(tools, "7z"@) && tool_found(tools, "rsync"@)) ==> checklist_items(
            p,
            isos,
            media,
            usb_entry,
            tools,
        )[7].status == ItemStatus::Fail && recommendation_of(checklist_items(p, isos, media, usb_entry, tools))
            == REC_FIX@,
{
    let items = checklist_items(p, isos, media, usb_entry, tools);
    assert(items[7] == tools_item(tools));
    if !(tool_found(tools, "7z"@) && tool_found(tools, "rsync"@)) {
        assert(items[7].status == ItemStatus::Fail);
        assert(exists|k: int| 0 <= k < items.len() && (#[trigger] items[k]).status == ItemStatus::Fail) by {
            assert(0 <= 7 < items.len() && items[7].status == ItemStatus::Fail);
        }
    }
}

pub fn build_recommendation(items: &Vec<ChecklistItem>) -> (r: String)
    ensures
        r@ == recommendation_of(items@.map_values(|i: ChecklistItem| i@)),
{
    let ghost v = items@.map_values(|i: ChecklistItem| i@);
    let mut fails = false;
    let mut daemon_warn = false;
    let mut i: usize = 0;
    while i < items.len()
        invariant
            i <= items.len(),
            v == items@.map_values(|i: ChecklistItem| i@),
            fails == exists|k: int| 0 <= k < i && (#[trigger] v[k]).status == ItemStatus::Fail,
            daemon_warn == exists|k: int| 0 <= k < i && (#[trigger] v[k]).id == "daemon"@ && v[k].status == ItemStatus::Warn,
        decreases items.len() - i,
    {
        proof {
            assert(v[i as int] == items@[i as int]@);
        }
        if items[i].status == ItemStatus::Fail {
            fails = true;
        }
        if str_eq(items[i].id.as_str(), "daemon") && items[i].status == ItemStatus::Warn {
            daemon_warn = true;
        }
        i += 1;
    }
    if fails {
        String::from_str(REC_FIX)
    } else if daemon_warn {
        String::from_str(REC_DAEMON)
    } else {
        String::from_str(REC_READY)
    }
}

fn tool_found_exec(tools: &Vec<ToolStatus>, name: &str) -> (b: bool)
    ensures
        b == tool_found(tools@, name@),
{
    let mut i: usize = 0;
    while i < tools.len()
        invariant
            i <= tools.len(),
            forall|k: int| 0 <= k < i ==> !((#[trigger] tools@[k]).name@ == name@ && tools@[k].found),
        decreases tools.len() - i,
    {
        if tools[i].found && str_eq(tools[i].name.as_str(), name) {
            return true;
        }
        i += 1;
    }
    false
}

fn first_win11_exec(isos: &Vec<IsoFile>) -> (k: Option<usize>)
    ensures
        match k {
            Some(i) => i < isos@.len() && first_win11(isos@.map_values(|f: IsoFile| f@)) == i as int,
            None => first_win11(isos@.map_values(|f: IsoFile| f@)) < 0,
        },
{
    let ghost v = isos@.map_values(|f: IsoFile| f@);
    let mut i: usize = 0;
    proof {
        assert(v.skip(0) =~= v);
    }
    while i < isos.len()
        invariant
            i <= isos.len(),
            v == isos@.map_values(|f: IsoFile| f@),
            forall|j: int| 0 <= j < i ==> !(#[trigger] v[j]).looks_like_windows11,
            first_win11(v) == (if first_win11(v.skip(i as int)) < 0 { -1 } else { first_win11(v.skip(i as int)) + i }),
        decreases isos.len() - i,
    {
        proof {
            assert(v.skip(i as int).drop_first() =~= v.skip(i + 1));
            assert(v.skip(i as int)[0] == v[i as int]);
        }
        if isos[i].looks_like_windows11 {
            return Some(i);
        }
        i += 1;
    }
    None
}

/// Runs the checklist over what was probed: `isos` (see [`find_isos`]),
/// the removable `media`, the firmware's USB entry (`usb_entry`) and the
/// tool statuses.
pub fn run_checklist(
    probe: &ChecklistProbe,
    isos: Vec<IsoFile>,
    media: Vec<RemovableMedia>,
    usb_entry: &Result<Option<String>, SysforgeError>,
    tools: &Vec<ToolStatus>,
) -> (c: WindowsChecklist)
    ensures
        c.items@.map_values(|i: ChecklistItem| i@) == checklist_items(*probe,
            isos@.map_values(|f: IsoFile| f@), media@.map_values(|m: RemovableMedia| m@), *usb_entry, tools@),
        c.recommendation@ == recommendation_of(c.items@.map_values(|i: ChecklistItem| i@)),
        c.isos@ == isos@,
        c.media@ == media@,
{
    let ghost iv = isos@.map_values(|f: IsoFile| f@);
    let ghost mv = media@.map_values(|m: RemovableMedia| m@);

    // 1 — UEFI
    let it1 = if probe.is_uefi {
        item("uefi", ItemStatus::Pass, "UEFI nativo", String::from_str("firmware EFI presente — instalação no modo moderno"), None)
    } else {
        item("uefi", ItemStatus::Fail, "UEFI nativo", String::from_str("máquina não boota em UEFI"),
            Some(String::from_str("O fluxo automático exige UEFI.")))
    };

    // 2 — CPU / TPM
    let mut hw = String::from_str("CPU: ");
    match &probe.cpu_model {
        Some(c) => push_str(&mut hw, c.as_str()),
        None => {},
    }
    push_str(&mut hw, " · TPM: ");
    push_str(&mut hw, if probe.tpm_present { "detectado" } else { "não detectado" });
    let it2 = item(
        "requisitos",
        if probe.tpm_present { ItemStatus::Info } else { ItemStatus::Warn },
        "Requisitos oficiais do Windows 11",
        hw,
        Some(String::from_str(HINT_REQUIREMENTS)),
    );

    // 3 — Secure Boot
    let it3 = match probe.secure_boot {
        Some(true) => item("secureboot", ItemStatus::Info, "Secure Boot", String::from_str("habilitado — instalação oficial flui"), None),
        Some(false) => item("secureboot", ItemStatus::Info, "Secure Boot", String::from_str("desabilitado — bypass incluído no unattend"), None),
        None => item("secureboot", ItemStatus::Warn, "Secure Boot", String::from_str("estado ilegível"), None),
    };

    // 4 — ISO
    let iso_it = match first_win11_exec(&isos) {
        Some(k) => {
            let iso = &isos[k];
            proof {
                assert(iv[k as int] == isos@[k as int]@);
            }
            let mut d = clone_string(&iso.name);
            push_str(&mut d, " · ");
            push_dec(&mut d, iso.size_bytes / GIB);
            push_str(&mut d, " GB");
            item("iso", ItemStatus::Pass, "ISO do Windows 11", d, Some(clone_string(&iso.path)))
        },
        None => if isos.len() > 0 {
            let mut d = String::from_str("nenhum ISO com cara de Win11; outros encontrados: ");
            push_dec(&mut d, isos.len() as u64);
            let mut h = String::from_str("Baixe o oficial: ");
            push_str(&mut h, WINDOWS11_DOWNLOAD_URL);
            item("iso", ItemStatus::Warn, "ISO do Windows 11", d, Some(h))
        } else {
            let mut h = String::from_str("Baixe o oficial em ");
            push_str(&mut h, WINDOWS11_DOWNLOAD_URL);
            push_str(&mut h, " e salve em ~/Downloads");
            item("iso", ItemStatus::Fail, "ISO do Windows 11", String::from_str("nenhuma ISO encontrada nos diretórios padrão"), Some(h))
        },
    };
    let it4 = iso_it;

    // 5 — removable media
    let mut ventoy = false;
    let mut j: usize = 0;
    while j < media.len()
        invariant
            j <= media.len(),
            mv == media@.map_values(|m: RemovableMedia| m@),
            ventoy == exists|k: int| 0 <= k < j && (#[trigger] mv[k]).is_ventoy,
        decreases media.len() - j,
    {
        proof {
            assert(mv[j as int] == media@[j as int]@);
        }
        if media[j].is_ventoy {
            ventoy = true;
        }
        j += 1;
    }
    let media_it = if media.len() == 0 {
        item("media", ItemStatus::Fail, "Mídia USB", String::from_str("nenhum pendrive/SD detectado"),
            Some(String::from_str("Conecte um pendrive (≥ 8 GiB) — Ventoy recomendado.")))
    } else {
        let m = &media[0];
        proof {
            assert(mv[0] == media@[0]@);
        }
        if ventoy {
            let mut d = clone_string(&m.name);
            push_str(&mut d, " · ");
            match &m.model {
                Some(x) => push_str(&mut d, x.as_str()),
                None => push_str(&mut d, "—"),
            }
            push_str(&mut d, " · ");
            let g = fmt_gb(m.size_bytes);
            push_str(&mut d, g.as_str());
            push_str(&mut d, " · Ventoy");
            match &m.mounted_at {
                Some(x) => {
                    push_str(&mut d, " montado em ");
                    push_str(&mut d, x.as_str());
                },
                None => {},
            }
            item("media", ItemStatus::Pass, "Mídia USB", d, None)
        } else {
            let mut d = clone_string(&m.name);
            push_str(&mut d, " · ");
            let g = fmt_gb(m.size_bytes);
            push_str(&mut d, g.as_str());
            push_str(&mut d, " presente, mas SEM Ventoy — cópia FAT32 pode falhar (install.wim > 4 GiB)");
            item("media", ItemStatus::Warn, "Mídia USB", d,
                Some(String::from_str("Recomendado: instale Ventoy no pendrive (você já usa Ventoy) e copie a ISO + autounattend.")))
        }
    };
    let it5 = media_it;

    // 6 — USB entry in the firmware
    let it6 = match usb_entry {
        Ok(Some(id)) => {
            let mut d = String::from_str("ID ");
            push_str(&mut d, id.as_str());
            push_str(&mut d, " disponível para BootNext");
            item("usb_entry", ItemStatus::Pass, "Entrada USB no firmware", d, None)
        },
        Ok(None) => item("usb_entry", ItemStatus::Warn, "Entrada USB no firmware",
            String::from_str("sem entrada USB dedicada — boot manual via menu F12/F9"), None),
        Err(e) => {
            let mut d = String::from_str("efibootmgr falhou: ");
            push_str(&mut d, e.code.as_str());
            item("usb_entry", ItemStatus::Warn, "Entrada USB no firmware", d, None)
        },
    };

    // 7 — reboot into the firmware
    let it7 = if probe.firmware_reboot {
        item("firmware_reboot", ItemStatus::Pass, "Reboot direto na BIOS (OsIndications)",
            String::from_str("firmware suporta BOOT_TO_FIRMWARE_UI"), None)
    } else {
        item("firmware_reboot", ItemStatus::Warn, "Reboot direto na BIOS",
            String::from_str("firmware não anuncia suporte — entrada manual (F2/Del)"), None)
    };

    // 8 — tools
    let has7z = tool_found_exec(tools, "7z");
    let has_rsync = tool_found_exec(tools, "rsync");
    let has_wimlib = tool_found_exec(tools, "wimlib-imagex");
    let mut d = String::from_str("7z: ");
    push_str(&mut d, yn(has7z));
    push_str(&mut d, " · rsync: ");
    push_str(&mut d, yn(has_rsync));
    push_str(&mut d, " · wimlib (split >4GiB): ");
    push_str(&mut d, yn(has_wimlib));
    let it8 = item("tools", if has7z && has_rsync { ItemStatus::Pass } else { ItemStatus::Fail }, "Ferramentas de mídia", d,
        Some(String::from_str("sudo apt install p7zip-full rsync wimtools (ou bash scripts/bootstrap-linux.sh)")));

    // 9 — system daemon
    let it9 = if probe.daemon_up {
        item("daemon", ItemStatus::Pass, "Daemon sysforge-osd (system)", String::from_str("privilégios prontos"), None)
    } else {
        item("daemon", ItemStatus::Warn, "Daemon sysforge-osd (system)",
            String::from_str("não está rodando — BootNext/reboot precisam dele"),
            Some(String::from_str("Rode `sysforge daemon system` e autorize no diálogo do polkit (sua senha).")))
    };

    proof {
        assert(it1@ == uefi_item(*probe));
        assert(it2@ == requirements_item(*probe));
        assert(it3@ == secure_boot_item(*probe));
        assert(it4@ == iso_item(iv));
        assert(it5@ == media_item(mv));
        assert(it6@ == usb_entry_item(*usb_entry));
        assert(it7@ == firmware_reboot_item(*probe));
        assert(it8@ == tools_item(tools@));
        assert(it9@ == daemon_item(*probe));
    }
    let mut items: Vec<ChecklistItem> = Vec::new();
    items.push(it1);
    items.push(it2);
    items.push(it3);
    items.push(it4);
    items.push(it5);
    items.push(it6);
    items.push(it7);
    items.push(it8);
    items.push(it9);
    proof {
        assert(items@.map_values(|i: ChecklistItem| i@) =~= checklist_items(*probe, iv, mv, *usb_entry, tools@));
    }
    let recommendation = build_recommendation(&items);
    WindowsChecklist { items, isos, media, recommendation }
}

} // verus!
