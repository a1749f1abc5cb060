//! UEFI boot engine — the `efibootmgr` parser and the read around it.
//!
//! Writes never happen here: only reading. The device path comes on the
//! same line after a tab (efibootmgr >= 17) or on a continuation line;
//! both forms are understood.

use vstd::prelude::*;

use crate::error::{error_code, ErrorDomain, SysforgeError, push_exit_debug};
use crate::executor::ExecResult;
use crate::ui::{lemma_shows_one, paint, push_piece, shows, Piece};
use crate::text::{
    chars_of, clone_opt, clone_string, copy_range, find_at, find_char, find_seq, index_of, is_hex_digit,
    is_hex_digit_char, lines, lines_of, opt_view, parse_u64, parse_u64_range, push_str, skip_ws,
    split_char, split_char_of, split_once, starts_with, starts_with_at, string_from, string_range,
    trim, trim_bounds, trim_char_bounds, trim_end_char, trim_start_char, words, next_word,
};

verus! {

#[derive(Debug, Clone, Default)]
pub struct EfiBootEntry {
    /// 4-digit hex id, e.g. "0000".
    pub id: String,
    /// Active entry (asterisk in efibootmgr).
    pub active: bool,
    /// Readable name, e.g. "Ubuntu".
    pub name: String,
    /// Full UEFI device path, e.g. "HD(1,GPT,...)/File(\EFI\...)".
    pub device_path: Option<String>,
    /// The \EFI\... loader inside the device path (when it has a File()).
    pub loader_path: Option<String>,
}

#[derive(Debug, Clone, Default)]
pub struct EfiBootState {
    pub boot_current: Option<String>,
    pub timeout_secs: Option<u64>,
    pub boot_order: Vec<String>,
    pub entries: Vec<EfiBootEntry>,
}

/// Abstract boot entry.
#[verifier::ext_equal]
pub struct EntryV {
    pub id: Seq<char>,
    pub active: bool,
    pub name: Seq<char>,
    pub device_path: Option<Seq<char>>,
    pub loader_path: Option<Seq<char>>,
}

/// Abstract boot state.
#[verifier::ext_equal]
pub struct EfiV {
    pub boot_current: Option<Seq<char>>,
    pub timeout_secs: Option<u64>,
    pub boot_order: Seq<Seq<char>>,
    pub entries: Seq<EntryV>,
}

impl View for EfiBootEntry {
    type V = EntryV;

    open spec fn view(&self) -> EntryV {
        EntryV {
            id: self.id@,
            active: self.active,
            name: self.name@,
            device_path: opt_view(self.device_path),
            loader_path: opt_view(self.loader_path),
        }
    }
}

impl View for EfiBootState {
    type V = EfiV;

    open spec fn view(&self) -> EfiV {
        EfiV {
            boot_current: opt_view(self.boot_current),
            timeout_secs: self.timeout_secs,
            boot_order: self.boot_order@.map_values(|s: String| s@),
            entries: self.entries@.map_values(|e: EfiBootEntry| e@),
        }
    }
}

/// Entries that the firmware generates itself (Setup, Diagnostics, its
/// menus): their device path names a firmware volume (`FvFile(`) or a
/// vendor message (`VenMsg(`) rather than a file on a disk.
pub open spec fn firmware_internal(e: EntryV) -> bool {
    match e.device_path {
        Some(d) => starts_with(d, "FvFile("@) || starts_with(d, "VenMsg("@),
        None => false,
    }
}

impl EfiBootEntry {
    /// Is this an entry that the firmware generates itself?
    pub fn is_firmware_internal(&self) -> (b: bool)
        ensures
            b == firmware_internal(self@),
    {
        match &self.device_path {
            None => false,
            Some(d) => {
                let v = chars_of(d.as_str());
                let fv = chars_of("FvFile(");
                let vm = chars_of("VenMsg(");
                assert(v@.skip(0) =~= v@);
                starts_with_at(v.as_slice(), 0, fv.as_slice()) || starts_with_at(
                    v.as_slice(),
                    0,
                    vm.as_slice(),
                )
            },
        }
    }

    /// A copy of the entry.
    pub fn clone_entry(&self) -> (e: Self)
        ensures
            e@ == self@,
    {
        EfiBootEntry {
            id: clone_string(&self.id),
            active: self.active,
            name: clone_string(&self.name),
            device_path: clone_opt(&self.device_path),
            loader_path: clone_opt(&self.loader_path),
        }
    }
}

/// The loader inside `/File(...)` — not `FvFile(uuid)`, which names a
/// firmware volume and has no file path. An empty `File()` has none.
pub open spec fn loader_of(dp: Seq<char>) -> Option<Seq<char>> {
    let i = find_seq(dp, "/File("@);
    if i < 0 {
        None
    } else {
        let rest = dp.skip(i + 6);
        let j = index_of(rest, ')');
        if j <= 0 {
            None
        } else {
            Some(rest.take(j))
        }
    }
}

/// Is this line an entry line: "Boot" and four hex digits?
pub open spec fn is_entry_line(l: Seq<char>) -> bool {
    l.len() >= 8 && l.take(4) == "Boot"@ && is_hex_digit(l[4]) && is_hex_digit(l[5])
        && is_hex_digit(l[6]) && is_hex_digit(l[7])
}

/// The entry an entry line declares (its loader is found at the end).
pub open spec fn entry_of(l: Seq<char>) -> EntryV {
    let rest = l.skip(8);
    let r2 = trim_start_char(rest, '*');
    match split_once(r2, '\t') {
        Some((n, d)) => EntryV {
            id: l.subrange(4, 8),
            active: rest.len() > 0 && rest[0] == '*',
            name: trim(n),
            device_path: Some(trim(d)),
            loader_path: None,
        },
        None => EntryV {
            id: l.subrange(4, 8),
            active: rest.len() > 0 && rest[0] == '*',
            name: trim(r2),
            device_path: None,
            loader_path: None,
        },
    }
}

/// A device path continued by `chunk`.
pub open spec fn continued(dp: Option<Seq<char>>, chunk: Seq<char>) -> Seq<char> {
    match dp {
        Some(d) => if d.len() > 0 {
            d + " "@ + chunk
        } else {
            chunk
        },
        None => chunk,
    }
}

/// The non-empty pieces of a comma list.
pub open spec fn nonempty_pieces(s: Seq<Seq<char>>) -> Seq<Seq<char>> {
    s.filter(|p: Seq<char>| p.len() > 0)
}

/// One line of efibootmgr output applied to the state read so far.
pub open spec fn efi_step(st: EfiV, line: Seq<char>) -> EfiV {
    let l = trim_end_char(line, '\r');
    if starts_with(l, "BootCurrent:"@) {
        let v = trim(l.skip(12));
        if v.len() > 0 {
            EfiV { boot_current: Some(v), ..st }
        } else {
            st
        }
    } else if starts_with(l, "Timeout:"@) {
        let w = words(l.skip(8));
        if w.len() > 0 {
            EfiV { timeout_secs: parse_u64(w[0]), ..st }
        } else {
            st
        }
    } else if starts_with(l, "BootOrder:"@) {
        EfiV { boot_order: nonempty_pieces(split_char(trim(l.skip(10)), ',')), ..st }
    } else if is_entry_line(l) {
        EfiV { entries: st.entries.push(entry_of(l)), ..st }
    } else if (starts_with(l, "\t"@) || starts_with(l, "    "@)) && st.entries.len() > 0 && trim(
        l,
    ).len() > 0 {
        let last = st.entries.last();
        let e = EntryV { device_path: Some(continued(last.device_path, trim(l))), ..last };
        EfiV { entries: st.entries.drop_last().push(e), ..st }
    } else {
        st
    }
}

/// All lines applied in order.
pub open spec fn efi_fold(ls: Seq<Seq<char>>) -> EfiV
    decreases ls.len(),
{
    if ls.len() == 0 {
        EfiV { boot_current: None, timeout_secs: None, boot_order: seq![], entries: seq![] }
    } else {
        efi_step(efi_fold(ls.drop_last()), ls.last())
    }
}

/// An entry with its loader resolved from its device path.
pub open spec fn with_loader(e: EntryV) -> EntryV {
    match e.device_path {
        Some(d) => EntryV { loader_path: loader_of(d), ..e },
        None => e,
    }
}

/// What `efibootmgr` output says about the boot configuration.
pub open spec fn parsed_efi(output: Seq<char>) -> EfiV {
    let st = efi_fold(lines(output));
    EfiV { entries: st.entries.map_values(|e: EntryV| with_loader(e)), ..st }
}

fn literal(s: &str) -> (v: Vec<char>)
    ensures
        v@ == s@,
{
    chars_of(s)
}

/// Extracts the loader of a device path.
fn extract_loader(dp: &[char]) -> (r: Option<String>)
    ensures
        opt_view(r) == loader_of(dp@),
{
    let pat = literal("/File(");
    proof {
        reveal_strlit("/File(");
    }
    let found = find_at(dp, 0, pat.as_slice());
    proof {
        assert(dp@.skip(0) =~= dp@);
        crate::text::lemma_contains_find(dp@, pat@);
    }
    let i = match found {
        None => return None,
        Some(i) => i,
    };
    let start: usize = i + 6;
    let j = find_char(dp, start, ')');
    proof {
        crate::text::lemma_index_of_bounds(dp@.skip(start as int), ')');
    }
    if j == dp.len() || j == start {
        return None;
    }
    proof {
        assert(dp@.skip(start as int).take(j - start) =~= dp@.subrange(start as int, j as int));
    }
    Some(string_range(dp, start, j))
}

fn is_entry_line_exec(l: &[char]) -> (b: bool)
    ensures
        b == is_entry_line(l@),
{
    let boot = literal("Boot");
    proof {
        reveal_strlit("Boot");
    }
    if l.len() < 8 {
        return false;
    }
    let sw = starts_with_at(l, 0, boot.as_slice());
    proof {
        assert(l@.skip(0) =~= l@);
    }
    sw && is_hex_digit_char(l[4]) && is_hex_digit_char(l[5]) && is_hex_digit_char(l[6])
        && is_hex_digit_char(l[7])
}

/// End of the run of `'*'` after the id of an entry line.
fn skip_stars(l: &[char]) -> (s: usize)
    requires
        l.len() >= 8,
    ensures
        8 <= s <= l.len(),
        trim_start_char(l@.skip(8), '*') == l@.skip(s as int),
{
    let mut s: usize = 8;
    while s < l.len() && l[s] == '*'
        invariant
            8 <= s <= l.len(),
            forall|k: int| 8 <= k < s ==> #[trigger] l@[k] == '*',
        decreases l.len() - s,
    {
        s += 1;
    }
    let ghost rest = l@.skip(8);
    proof {
        assert forall|k: int| 0 <= k < s - 8 implies #[trigger] rest[k] == '*' by {
            assert(rest[k] == l@[k + 8]);
        }
        crate::text::lemma_trim_start_char(rest, '*', s - 8);
        assert(rest.skip(s - 8) =~= l@.skip(s as int));
    }
    s
}

fn entry_from_line(l: &[char]) -> (e: EfiBootEntry)
    requires
        is_entry_line(l@),
    ensures
        e@ == entry_of(l@),
{
    let id = string_range(l, 4, 8);
    let active = l.len() > 8 && l[8] == '*';
    proof {
        if l.len() > 8 {
            assert(l@.skip(8)[0] == l@[8]);
        }
    }
    let s = skip_stars(l);
    let ghost r2 = l@.skip(s as int);
    let tab = find_char(l, s, '\t');
    proof {
        crate::text::lemma_index_of_bounds(r2, '\t');
    }
    if tab < l.len() {
        let (na, nb) = trim_bounds_range(l, s, tab);
        let (da, db) = trim_bounds_range(l, tab + 1, l.len());
        proof {
            assert(r2.take(tab - s) =~= l@.subrange(s as int, tab as int));
            assert(r2.skip(tab - s + 1) =~= l@.subrange(tab + 1, l.len() as int));
        }
        EfiBootEntry {
            id,
            active,
            name: string_range(l, na, nb),
            device_path: Some(string_range(l, da, db)),
            loader_path: None,
        }
    } else {
        let (na, nb) = trim_bounds_range(l, s, l.len());
        proof {
            assert(r2 =~= l@.subrange(s as int, l.len() as int));
        }
        EfiBootEntry { id, active, name: string_range(l, na, nb), device_path: None, loader_path: None }
    }
}

/// Bounds of `trim(s[a..b])` inside `s`.
pub fn trim_bounds_range(s: &[char], a: usize, b: usize) -> (r: (usize, usize))
    requires
        a <= b <= s.len(),
    ensures
        a <= r.0 <= r.1 <= b,
        s@.subrange(r.0 as int, r.1 as int) == trim(s@.subrange(a as int, b as int)),
{
    let piece = copy_range(s, a, b);
    let (x, y) = trim_bounds(piece.as_slice());
    proof {
        assert(piece@.subrange(x as int, y as int) =~= s@.subrange(a + x, a + y));
    }
    (a + x, a + y)
}


/// Applies one output line to the state read so far.
fn efi_apply(st: &mut EfiBootState, line: &[char])
    ensures
        final(st)@ == efi_step(old(st)@, line@),
{
    // trim_end_matches('\r')
    let mut end: usize = line.len();
    while end > 0 && line[end - 1] == '\r'
        invariant
            end <= line.len(),
            forall|k: int| end <= k < line.len() ==> #[trigger] line@[k] == '\r',
        decreases end,
    {
        end -= 1;
    }
    proof {
        crate::text::lemma_trim_end_char(line@, '\r', end as int);
    }
    let l = copy_range(line, 0, end);
    proof {
        assert(line@.subrange(0, end as int) =~= line@.take(end as int));
    }
    let p_current = literal("BootCurrent:");
    let p_timeout = literal("Timeout:");
    let p_order = literal("BootOrder:");
    let p_tab = literal("\t");
    let p_spaces = literal("    ");
    proof {
        reveal_strlit("BootCurrent:");
        reveal_strlit("Timeout:");
        reveal_strlit("BootOrder:");
        reveal_strlit("\t");
        reveal_strlit("    ");
        assert(l@.skip(0) =~= l@);
    }
    if starts_with_at(l.as_slice(), 0, p_current.as_slice()) {
        let (a, b) = trim_bounds_range(l.as_slice(), 12, l.len());
        proof {
            assert(l@.subrange(12, l.len() as int) =~= l@.skip(12));
        }
        if a < b {
            st.boot_current = Some(string_range(l.as_slice(), a, b));
        }
        return;
    }
    if starts_with_at(l.as_slice(), 0, p_timeout.as_slice()) {
        match next_word(l.as_slice(), 8) {
            Some((a, b)) => {
                st.timeout_secs = parse_u64_range(l.as_slice(), a, b);
            },
            None => {},
        }
        return;
    }
    if starts_with_at(l.as_slice(), 0, p_order.as_slice()) {
        let (a, b) = trim_bounds_range(l.as_slice(), 10, l.len());
        let body = copy_range(l.as_slice(), a, b);
        proof {
            assert(l@.subrange(10, l.len() as int) =~= l@.skip(10));
        }
        let pieces = split_char_of(body.as_slice(), ',');
        let mut order: Vec<String> = Vec::new();
        let ghost all = split_char(body@, ',');
        let mut i: usize = 0;
        while i < pieces.len()
            invariant
                i <= pieces.len() == all.len(),
                all == split_char(body@, ','),
                forall|k: int| 0 <= k < pieces@.len() ==> #[trigger] pieces@[k]@ == all[k],
                order@.map_values(|x: String| x@) == nonempty_pieces(all.take(i as int)),
            decreases pieces.len() - i,
        {
            let ghost before = order@;
            if pieces[i].len() > 0 {
                order.push(string_from(pieces[i].as_slice()));
            }
            proof {
                assert(all.take(i + 1).drop_last() =~= all.take(i as int));
                reveal(Seq::filter);
                assert(order@.map_values(|x: String| x@) =~= nonempty_pieces(all.take(i + 1)));
            }
            i += 1;
        }
        proof {
            assert(all.take(pieces.len() as int) =~= all);
        }
        st.boot_order = order;
        return;
    }
    if is_entry_line_exec(l.as_slice()) {
        let e = entry_from_line(l.as_slice());
        let ghost before = st.entries@;
        st.entries.push(e);
        proof {
            assert(st.entries@.map_values(|x: EfiBootEntry| x@) =~= before.map_values(
                |x: EfiBootEntry| x@,
            ).push(entry_of(l@)));
        }
        return;
    }
    let cont = starts_with_at(l.as_slice(), 0, p_tab.as_slice()) || starts_with_at(
        l.as_slice(),
        0,
        p_spaces.as_slice(),
    );
    if cont && st.entries.len() > 0 {
        let (a, b) = trim_bounds_range(l.as_slice(), 0, l.len());
        proof {
            assert(l@.subrange(0, l.len() as int) =~= l@);
        }
        if a < b {
            let ghost before = st.entries@;
            let mut last = st.entries.pop().unwrap();
            let chunk = string_range(l.as_slice(), a, b);
            let dp = match last.device_path {
                Some(d) => {
                    if d.as_str().unicode_len() > 0 {
                        let mut d2 = d;
                        push_str(&mut d2, " ");
                        push_str(&mut d2, chunk.as_str());
                        d2
                    } else {
                        chunk
                    }
                },
                None => chunk,
            };
            last.device_path = Some(dp);
            st.entries.push(last);
            proof {
                assert(before.drop_last().map_values(|x: EfiBootEntry| x@) =~= before.map_values(
                    |x: EfiBootEntry| x@,
                ).drop_last());
                assert(st.entries@.map_values(|x: EfiBootEntry| x@) =~= before.map_values(
                    |x: EfiBootEntry| x@,
                ).drop_last().push(final_entry_view(before.last()@, trim(l@))));
            }
        }
    }
}

/// Spec helper: an entry view with its device path continued by `chunk`.
pub open spec fn final_entry_view(last: EntryV, chunk: Seq<char>) -> EntryV {
    EntryV { device_path: Some(continued(last.device_path, chunk)), ..last }
}

/// Pure parser of efibootmgr text (util-linux format):
///
/// ```text
/// BootCurrent: 0000
/// Timeout: 0 seconds
/// BootOrder: 0000,001C,0010
/// Boot0000* Ubuntu	HD(1,GPT,...)/File(\EFI\ubuntu\shimx64.efi)
/// Boot0010  Setup	FvFile(721c...)
/// ```
pub fn parse_efibootmgr(output: &str) -> (st: EfiBootState)
    ensures
        st@ == parsed_efi(output@),
{
    let text = chars_of(output);
    let ls = lines_of(text.as_slice());
    let ghost all = lines(output@);
    let mut st = EfiBootState {
        boot_current: None,
        timeout_secs: None,
        boot_order: Vec::new(),
        entries: Vec::new(),
    };
    let mut i: usize = 0;
    proof {
        assert(all.take(0) =~= Seq::<Seq<char>>::empty());
        assert(st@ =~= efi_fold(all.take(0)));
    }
    while i < ls.len()
        invariant
            i <= ls.len() == all.len(),
            all == lines(output@),
            text@ == output@,
            forall|k: int| 0 <= k < ls@.len() ==> #[trigger] ls@[k]@ == all[k],
            st@ == efi_fold(all.take(i as int)),
        decreases ls.len() - i,
    {
        efi_apply(&mut st, ls[i].as_slice());
        proof {
            assert(all.take(i + 1).drop_last() =~= all.take(i as int));
        }
        i += 1;
    }
    proof {
        assert(all.take(ls.len() as int) =~= all);
    }
    let ghost folded = st.entries@.map_values(|e: EfiBootEntry| e@);
    let mut pending: Vec<EfiBootEntry> = Vec::new();
    std::mem::swap(&mut pending, &mut st.entries);
    let ghost start = pending@;
    proof {
        assert(start.map_values(|e: EfiBootEntry| e@) == folded);
    }
    let mut done: Vec<EfiBootEntry> = Vec::new();
    while pending.len() > 0
        invariant
            done@.len() + pending@.len() == folded.len(),
            forall|k: int| 0 <= k < done@.len() ==> #[trigger] done@[k]@ == with_loader(folded[k]),
            forall|k: int| 0 <= k < pending@.len() ==> #[trigger] pending@[k]@ == folded[done@.len() + k],
        decreases pending@.len(),
    {
        let ghost before = pending@;
        let mut e = pending.remove(0);
        assert(e@ == folded[done@.len() as int]);
        assert forall|k: int| 0 <= k < pending@.len() implies #[trigger] pending@[k] == before[k + 1] by {}
        let loader = match &e.device_path {
            Some(d) => {
                let dv = chars_of(d.as_str());
                extract_loader(dv.as_slice())
            },
            None => None,
        };
        match &e.device_path {
            Some(_) => {
                e.loader_path = loader;
            },
            None => {},
        }
        done.push(e);
    }
    st.entries = done;
    proof {
        assert(st.entries@.map_values(|e: EfiBootEntry| e@) =~= folded.map_values(
            |e: EntryV| with_loader(e),
        ));
    }
    st
}




/// The read-only `efibootmgr` invocation.
pub fn efibootmgr_spec() -> (spec: crate::executor::CommandSpec)
    ensures
        spec.program@ == "efibootmgr"@,
        spec.args@.len() == 0,
        spec.env@.len() == 0,
        spec.timeout_secs == 15,
{
    crate::executor::CommandSpec::new("efibootmgr").timeout(15)
}

/// The UEFI state from a finished `efibootmgr` run. Where reading the
/// efivarfs needs root, the failure is reported honestly (`SF-BOOT-001`).
pub fn read_efi_state(r: &ExecResult) -> (out: Result<EfiBootState, SysforgeError>)
    ensures
        r.exit_code == Some(0i32) ==> (out matches Ok(st) && st@ == parsed_efi(r.stdout@)),
        r.exit_code != Some(0i32) ==> (out matches Err(e) && e.code@ == error_code(ErrorDomain::Boot, 1)
            && e.technical@ == "efibootmgr saiu com "@ + crate::error::exit_debug(r.exit_code)
            + ": "@ + trim(r.stderr@)),
{
    if !r.success() {
        let mut tech = String::from_str("efibootmgr saiu com ");
        push_exit_debug(&mut tech, r.exit_code);
        push_str(&mut tech, ": ");
        let v = chars_of(r.stderr.as_str());
        let t = crate::text::trim_string(v.as_slice());
        push_str(&mut tech, t.as_str());
        return Err(SysforgeError::new(
            ErrorDomain::Boot,
            1,
            "Não foi possível ler as entradas de boot UEFI",
        ).with_technical(tech.as_str()).with_recommendation(
            "Em alguns sistemas a leitura do efivarfs exige root; nesse caso use o daemon em modo sistema (`sysforge daemon status`).",
        ));
    }
    Ok(parse_efibootmgr(r.stdout.as_str()))
}

// ------------------------------------------------------------ presentation

/// One row of the boot table, unstyled: the marker of the entry booted
/// now, the id, whether it is active, the name (marked when the firmware
/// generates the entry itself), and the loader path (else
/// the device path, else a dash).
pub open spec fn boot_row_text(current: Option<Seq<char>>, e: EntryV) -> Seq<Seq<char>> {
    seq![
        if current == Some(e.id) { "▶ AQUI"@ } else { Seq::empty() },
        e.id,
        if e.active { "sim"@ } else { "não"@ },
        if firmware_internal(e) { e.name + " "@ + "(firmware)"@ } else { e.name },
        match e.loader_path {
            Some(l) => l,
            None => match e.device_path {
                Some(d) => d,
                None => "—"@,
            },
        },
    ]
}

/// The cells of a boot row as pieces: the marker in magenta, the id in
/// bold, "sim" in green or "não" dimmed, the name with a dimmed firmware
/// mark, the path as it is.
pub open spec fn boot_row_pieces(current: Option<Seq<char>>, e: EntryV) -> Seq<Seq<Piece>> {
    seq![
        if current == Some(e.id) { seq![("▶ AQUI"@, Some("magenta"@))] } else { seq![(Seq::empty(), None)] },
        seq![(e.id, Some("bold"@))],
        if e.active { seq![("sim"@, Some("green"@))] } else { seq![("não"@, Some("dim"@))] },
        if firmware_internal(e) {
            seq![(e.name, None), (" "@, None), ("(firmware)"@, Some("dim"@))]
        } else {
            seq![(e.name, None)]
        },
        seq![(boot_row_text(current, e)[4], None)],
    ]
}

fn boot_row(current: &Option<String>, e: &EfiBootEntry, color: bool) -> (row: Vec<String>)
    ensures
        row@.len() == 5,
        !color ==> row@.map_values(|c: String| c@) == boot_row_text(opt_view(*current), e@),
        forall|j: int| 0 <= j < 5 ==> shows(#[trigger] row@[j]@, boot_row_pieces(opt_view(*current), e@)[j], color),
{
    let here = match current {
        Some(c) => crate::text::str_eq(c.as_str(), e.id.as_str()),
        None => false,
    };
    let marker = if here { paint("▶ AQUI", "magenta", color) } else { String::new() };
    let id = paint(e.id.as_str(), "bold", color);
    let active = if e.active { paint("sim", "green", color) } else { paint("não", "dim", color) };
    let path = match &e.loader_path {
        Some(l) => clone_string(l),
        None => match &e.device_path {
            Some(d) => clone_string(d),
            None => String::from_str("—"),
        },
    };
    let ghost pcs = boot_row_pieces(opt_view(*current), e@);
    proof {
        lemma_shows_one(marker@, pcs[0][0], color);
        lemma_shows_one(id@, pcs[1][0], color);
        lemma_shows_one(active@, pcs[2][0], color);
        lemma_shows_one(path@, pcs[4][0], color);
    }
    let mut row: Vec<String> = Vec::new();
    row.push(marker);
    row.push(id);
    row.push(active);
    let mut name = String::new();
    let ghost e0: Seq<Piece> = seq![];
    push_piece(&mut name, e.name.as_str(), Ghost(e0), Ghost((e@.name, None)), color);
    if e.is_firmware_internal() {
        push_piece(&mut name, " ", Ghost(e0.push((e@.name, None))), Ghost((" "@, None)), color);
        let mark = paint("(firmware)", "dim", color);
        push_piece(
            &mut name,
            mark.as_str(),
            Ghost(e0.push((e@.name, None)).push((" "@, None))),
            Ghost(("(firmware)"@, Some("dim"@))),
            color,
        );
        assert(e0.push((e@.name, None)).push((" "@, None)).push(("(firmware)"@, Some("dim"@))) =~= pcs[3]);
    } else {
        assert(e0.push((e@.name, None)) =~= pcs[3]);
    }
    let ghost named = name@;
    row.push(name);
    row.push(path);
    proof {
        if !color {
            assert(named == boot_row_text(opt_view(*current), e@)[3]);
            assert(row@.map_values(|c: String| c@) =~= boot_row_text(opt_view(*current), e@));
        }
        assert forall|j: int| 0 <= j < 5 implies shows(#[trigger] row@[j]@, pcs[j], color) by {
        }
    }
    row
}

/// The rows of the boot table, one per entry in the firmware's order.
pub fn boot_rows(state: &EfiBootState, color: bool) -> (rows: Vec<Vec<String>>)
    ensures
        rows@.len() == state@.entries.len(),
        forall|k: int| 0 <= k < rows@.len() ==> (#[trigger] rows@[k])@.len() == 5,
        !color ==> forall|k: int| 0 <= k < rows@.len() ==> (#[trigger] rows@[k])@.map_values(
            |c: String| c@,
        ) == boot_row_text(state@.boot_current, state@.entries[k]),
        forall|k: int, j: int| 0 <= k < rows@.len() && 0 <= j < 5 ==> shows(
            #[trigger] rows@[k]@[j]@,
            boot_row_pieces(state@.boot_current, state@.entries[k])[j],
            color,
        ),
{
    let mut rows: Vec<Vec<String>> = Vec::new();
    let mut i: usize = 0;
    while i < state.entries.len()
        invariant
            i <= state.entries.len(),
            rows@.len() == i,
            forall|k: int| 0 <= k < i ==> (#[trigger] rows@[k])@.len() == 5,
            !color ==> forall|k: int| 0 <= k < i ==> (#[trigger] rows@[k])@.map_values(
                |c: String| c@,
            ) == boot_row_text(state@.boot_current, state@.entries[k]),
            forall|k: int, j: int| 0 <= k < i && 0 <= j < 5 ==> shows(
                #[trigger] rows@[k]@[j]@,
                boot_row_pieces(state@.boot_current, state@.entries[k])[j],
                color,
            ),
        decreases state.entries.len() - i,
    {
        let row = boot_row(&state.boot_current, &state.entries[i], color);
        rows.push(row);
        i += 1;
    }
    rows
}

/// The boot order joined by arrows, or a dash when there is none.
pub open spec fn boot_order_text(order: Seq<Seq<char>>) -> Seq<char> {
    if order.len() == 0 {
        "—"@
    } else {
        crate::text::join_with(order, " → "@)
    }
}

pub fn boot_order_line(state: &EfiBootState) -> (r: String)
    ensures
        r@ == boot_order_text(state@.boot_order),
{
    if state.boot_order.len() == 0 {
        String::from_str("—")
    } else {
        crate::text::join_strings(&state.boot_order, " → ")
    }
}

} // verus!
