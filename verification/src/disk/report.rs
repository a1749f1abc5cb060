//! The block inventory as the terminal shows it: one header row per disk,
//! one row per partition, and a SMART verdict line. With styles off every
//! cell is stated exactly.

use vstd::prelude::*;

use crate::disk::lsblk::{mounts_of, trimmed_nonempty, LsblkDevice};
use crate::disk::smart::SmartReport;
use crate::text::{chars_of, clone_string, join_strings, join_with, opt_view, push_str};
use crate::ui::{fmt_bytes, fmt_bytes_text, paint, painted, push_piece, shows, tag_warn, Piece};
use crate::Availability;

verus! {

/// A character whose lower case is exactly the ASCII letter `lower` (one
/// other than `i` and `k`): that letter in either case.
pub open spec fn lowers_to(x: char, lower: char, upper: char) -> bool {
    x == lower || x == upper
}

/// A character whose lower case begins with `i`: `I`, `i`, and `İ`, which
/// lowers to `i` followed by a combining dot.
pub open spec fn lowers_to_i(x: char) -> bool {
    x == 'i' || x == 'I' || x == '\u{130}'
}

/// `label.to_lowercase().contains("efi")`: three consecutive characters
/// whose lower cases spell it.
pub open spec fn names_esp(label: Seq<char>) -> bool {
    exists|i: int|
        0 <= i && i + 2 < label.len() && lowers_to(#[trigger] label[i], 'e', 'E') && lowers_to(label[i + 1], 'f', 'F')
            && lowers_to_i(label[i + 2])
}

fn names_esp_of(label: &str) -> (b: bool)
    ensures
        b == names_esp(label@),
{
    let v = chars_of(label);
    let mut i: usize = 0;
    while i < v.len() && v.len() - i > 2
        invariant
            v@ == label@,
            i <= v.len(),
            forall|j: int|
                0 <= j < i ==> !(lowers_to(#[trigger] v@[j], 'e', 'E') && lowers_to(v@[j + 1], 'f', 'F')
                    && lowers_to_i(v@[j + 2])) || j + 2 >= v@.len(),
        decreases v.len() - i,
    {
        let (a, b, c) = (v[i], v[i + 1], v[i + 2]);
        if (a == 'e' || a == 'E') && (b == 'f' || b == 'F') && (c == 'i' || c == 'I' || c == '\u{130}') {
            return true;
        }
        i += 1;
    }
    false
}

/// The label cell of a partition: the label, marked as the ESP when it
/// names one, or a dash.
pub open spec fn label_cell(label: Option<Seq<char>>) -> Seq<char> {
    match label {
        Some(l) => if names_esp(l) {
            l + " ⚑ESP"@
        } else {
            l
        },
        None => "—"@,
    }
}

/// A value or a dash.
pub open spec fn or_dash(o: Option<Seq<char>>) -> Seq<char> {
    match o {
        Some(s) => s,
        None => "—"@,
    }
}

fn or_dash_of(o: Option<String>) -> (s: String)
    ensures
        s@ == or_dash(opt_view(o)),
{
    match o {
        Some(s) => s,
        None => String::from_str("—"),
    }
}

/// The header row of a disk, unstyled: name, model, serial, size,
/// transport, and whether the medium is removable.
pub open spec fn disk_row_text(d: LsblkDevice) -> Seq<Seq<char>> {
    seq![
        d.name@,
        or_dash(trimmed_nonempty(d.model)),
        or_dash(trimmed_nonempty(d.serial)),
        fmt_bytes_text(d.size as nat),
        or_dash(opt_view(d.tran)),
        if d.rm == Some(true) { "removível"@ } else { "fixa"@ },
    ]
}

/// The cells of a disk's header row with their styles: the name in bold,
/// "removível" in yellow.
pub open spec fn disk_row_pieces(d: LsblkDevice) -> Seq<Piece> {
    seq![
        (d.name@, Some("bold"@)),
        (or_dash(trimmed_nonempty(d.model)), None),
        (or_dash(trimmed_nonempty(d.serial)), None),
        (fmt_bytes_text(d.size as nat), None),
        (or_dash(opt_view(d.tran)), None),
        if d.rm == Some(true) { ("removível"@, Some("yellow"@)) } else { ("fixa"@, None) },
    ]
}

pub fn disk_row(d: &LsblkDevice, color: bool) -> (row: Vec<String>)
    ensures
        row@.len() == 6,
        !color ==> row@.map_values(|c: String| c@) == disk_row_text(*d),
        forall|j: int| 0 <= j < 6 ==> painted(#[trigger] row@[j]@, disk_row_pieces(*d)[j], color),
{
    let mut row: Vec<String> = Vec::new();
    row.push(paint(d.name.as_str(), "bold", color));
    row.push(or_dash_of(d.model_trimmed()));
    row.push(or_dash_of(d.serial_trimmed()));
    row.push(fmt_bytes(d.size));
    row.push(or_dash_of(crate::text::clone_opt(&d.tran)));
    let removable = match d.rm {
        Some(true) => true,
        _ => false,
    };
    row.push(if removable { paint("removível", "yellow", color) } else { String::from_str("fixa") });
    proof {
        if !color {
            assert(row@.map_values(|c: String| c@) =~= disk_row_text(*d));
        }
        assert forall|j: int| 0 <= j < 6 implies painted(#[trigger] row@[j]@, disk_row_pieces(*d)[j], color) by {
        }
    }
    row
}

/// The mounts of a partition joined by commas, or a dash.
pub open spec fn mounts_cell(d: LsblkDevice) -> Seq<char> {
    if mounts_of(d).len() == 0 {
        "—"@
    } else {
        join_with(mounts_of(d), ", "@)
    }
}

/// A partition row, unstyled: tree branch and name, label, filesystem,
/// size, mounts.
pub open spec fn partition_row_text(p: LsblkDevice) -> Seq<Seq<char>> {
    seq![
        "└─ "@ + p.name@,
        label_cell(opt_view(p.partlabel)),
        or_dash(opt_view(p.fstype)),
        fmt_bytes_text(p.size as nat),
        mounts_cell(p),
    ]
}

/// The cells of a partition row with their styles: an ESP label in
/// magenta.
pub open spec fn partition_row_pieces(p: LsblkDevice) -> Seq<Piece> {
    seq![
        ("└─ "@ + p.name@, None),
        match opt_view(p.partlabel) {
            Some(l) => if names_esp(l) { (l + " ⚑ESP"@, Some("magenta"@)) } else { (l, None) },
            None => ("—"@, None),
        },
        (or_dash(opt_view(p.fstype)), None),
        (fmt_bytes_text(p.size as nat), None),
        (mounts_cell(p), None),
    ]
}

fn partition_row(p: &LsblkDevice, color: bool) -> (row: Vec<String>)
    ensures
        row@.len() == 5,
        !color ==> row@.map_values(|c: String| c@) == partition_row_text(*p),
        forall|j: int| 0 <= j < 5 ==> painted(#[trigger] row@[j]@, partition_row_pieces(*p)[j], color),
{
    let mut branch = String::from_str("└─ ");
    push_str(&mut branch, p.name.as_str());
    let label = match &p.partlabel {
        Some(l) => {
            if names_esp_of(l.as_str()) {
                let mut t = clone_string(l);
                push_str(&mut t, " ⚑ESP");
                paint(t.as_str(), "magenta", color)
            } else {
                clone_string(l)
            }
        },
        None => String::from_str("—"),
    };
    let ms = p.mounts();
    let mounts = if ms.len() == 0 {
        String::from_str("—")
    } else {
        join_strings(&ms, ", ")
    };
    let mut row: Vec<String> = Vec::new();
    row.push(branch);
    row.push(label);
    row.push(or_dash_of(crate::text::clone_opt(&p.fstype)));
    row.push(fmt_bytes(p.size));
    row.push(mounts);
    proof {
        if !color {
            assert(row@.map_values(|c: String| c@) =~= partition_row_text(*p));
        }
        assert forall|j: int| 0 <= j < 5 implies painted(#[trigger] row@[j]@, partition_row_pieces(*p)[j], color) by {
        }
    }
    row
}

/// The partition rows of a disk, in the order lsblk lists its children.
pub fn partition_rows(d: &LsblkDevice, color: bool) -> (rows: Vec<Vec<String>>)
    ensures
        rows@.len() == d.children@.len(),
        forall|k: int| 0 <= k < rows@.len() ==> (#[trigger] rows@[k])@.len() == 5,
        !color ==> forall|k: int| 0 <= k < rows@.len() ==> (#[trigger] rows@[k])@.map_values(
            |c: String| c@,
        ) == partition_row_text(d.children@[k]),
        forall|k: int, j: int| 0 <= k < rows@.len() && 0 <= j < 5 ==> painted(
            #[trigger] rows@[k]@[j]@,
            partition_row_pieces(d.children@[k])[j],
            color,
        ),
{
    let mut rows: Vec<Vec<String>> = Vec::new();
    let mut i: usize = 0;
    while i < d.children.len()
        invariant
            i <= d.children.len(),
            rows@.len() == i,
            forall|k: int| 0 <= k < i ==> (#[trigger] rows@[k])@.len() == 5,
            !color ==> forall|k: int| 0 <= k < i ==> (#[trigger] rows@[k])@.map_values(
                |c: String| c@,
            ) == partition_row_text(d.children@[k]),
            forall|k: int, j: int| 0 <= k < i && 0 <= j < 5 ==> painted(
                #[trigger] rows@[k]@[j]@,
                partition_row_pieces(d.children@[k])[j],
                color,
            ),
        decreases d.children.len() - i,
    {
        rows.push(partition_row(&d.children[i], color));
        i += 1;
    }
    rows
}

/// The SMART line of a disk, unstyled: the verdict when SMART could be
/// read, else the honest reason it could not.
pub open spec fn smart_line_text(r: SmartReport) -> Seq<char> {
    match r.available {
        Availability::Available => "  SMART: "@ + match r.passed {
            Some(true) => "aprovado"@,
            Some(false) => "REPROVADO — disco em risco!"@,
            None => "sem veredito (executar como root p/ detalhes)"@,
        },
        Availability::Unavailable { reason_code, reason } => "  ⚠ SMART indisponível — "@ + reason_code@
            + ": "@ + reason@,
    }
}

/// The pieces of the SMART line: the verdict in green, red or yellow; or
/// the warning badge and the reason code in yellow.
pub open spec fn smart_line_pieces(r: SmartReport) -> Seq<Piece> {
    match r.available {
        Availability::Available => seq![
            ("  SMART: "@, None),
            match r.passed {
                Some(true) => ("aprovado"@, Some("green"@)),
                Some(false) => ("REPROVADO — disco em risco!"@, Some("red"@)),
                None => ("sem veredito (executar como root p/ detalhes)"@, Some("yellow"@)),
            },
        ],
        Availability::Unavailable { reason_code, reason } => seq![
            ("  "@, None),
            ("⚠"@, Some("yellow"@)),
            (" SMART indisponível — "@, None),
            (reason_code@, Some("yellow"@)),
            (": "@, None),
            (reason@, None),
        ],
    }
}

pub fn smart_line(r: &SmartReport, color: bool) -> (s: String)
    ensures
        !color ==> s@ == smart_line_text(*r),
        shows(s@, smart_line_pieces(*r), color),
{
    let mut s = String::new();
    let ghost mut ps: Seq<Piece> = seq![];
    match &r.available {
        Availability::Available => {
            push_piece(&mut s, "  SMART: ", Ghost(ps), Ghost(("  SMART: "@, None)), color);
            proof { ps = ps.push(("  SMART: "@, None)); }
            let ghost vp: Piece = match r.passed {
                Some(true) => ("aprovado"@, Some("green"@)),
                Some(false) => ("REPROVADO — disco em risco!"@, Some("red"@)),
                None => ("sem veredito (executar como root p/ detalhes)"@, Some("yellow"@)),
            };
            let verdict = match r.passed {
                Some(true) => paint("aprovado", "green", color),
                Some(false) => paint("REPROVADO — disco em risco!", "red", color),
                None => paint("sem veredito (executar como root p/ detalhes)", "yellow", color),
            };
            push_piece(&mut s, verdict.as_str(), Ghost(ps), Ghost(vp), color);
            proof {
                ps = ps.push(vp);
                assert(ps =~= smart_line_pieces(*r));
            }
        },
        Availability::Unavailable { reason_code, reason } => {
            push_piece(&mut s, "  ", Ghost(ps), Ghost(("  "@, None)), color);
            proof { ps = ps.push(("  "@, None)); }
            let w = tag_warn(color);
            push_piece(&mut s, w.as_str(), Ghost(ps), Ghost(("⚠"@, Some("yellow"@))), color);
            proof { ps = ps.push(("⚠"@, Some("yellow"@))); }
            push_piece(&mut s, " SMART indisponível — ", Ghost(ps), Ghost((" SMART indisponível — "@, None)), color);
            proof { ps = ps.push((" SMART indisponível — "@, None)); }
            let c = paint(reason_code.as_str(), "yellow", color);
            push_piece(&mut s, c.as_str(), Ghost(ps), Ghost((reason_code@, Some("yellow"@))), color);
            proof { ps = ps.push((reason_code@, Some("yellow"@))); }
            push_piece(&mut s, ": ", Ghost(ps), Ghost((": "@, None)), color);
            proof { ps = ps.push((": "@, None)); }
            push_piece(&mut s, reason.as_str(), Ghost(ps), Ghost((reason@, None)), color);
            proof {
                ps = ps.push((reason@, None));
                assert(ps =~= smart_line_pieces(*r));
            }
            proof {
                if !color {
                    reveal_strlit("  ");
                    reveal_strlit(" SMART indisponível — ");
                    reveal_strlit("  ⚠ SMART indisponível — ");
                    reveal_strlit("⚠");
                    assert(s@ =~= smart_line_text(*r));
                }
            }
        },
    }
    s
}

} // verus!
