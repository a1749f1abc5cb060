//! What reading `efibootmgr` output promises: the entries follow the
//! entry lines, and a loader is the text of a `/File(..)` node.

use vstd::prelude::*;

use crate::boot::efi::{efi_fold, entry_of, is_entry_line, loader_of, parsed_efi, with_loader, EntryV};
use crate::text::{find_seq, index_of, lines, starts_with, trim_end_char};

verus! {

/// The entry lines of an output, in order ('\r' endings removed).
pub open spec fn entry_lines(ls: Seq<Seq<char>>) -> Seq<Seq<char>>
    decreases ls.len(),
{
    if ls.len() == 0 {
        seq![]
    } else {
        let l = trim_end_char(ls.last(), '\r');
        if is_entry_line(l) {
            entry_lines(ls.drop_last()).push(l)
        } else {
            entry_lines(ls.drop_last())
        }
    }
}

/// The entry a line declares: its id and whether it is active.
pub open spec fn declared_by(e: EntryV, l: Seq<char>) -> bool {
    e.id == l.subrange(4, 8) && e.active == (l.len() > 8 && l[8] == '*')
}

proof fn lemma_efi_fold_entries(ls: Seq<Seq<char>>)
    ensures
        efi_fold(ls).entries.len() == entry_lines(ls).len(),
        forall|k: int| 0 <= k < entry_lines(ls).len() ==> declared_by(
            #[trigger] efi_fold(ls).entries[k],
            entry_lines(ls)[k],
        ),
        forall|k: int| 0 <= k < efi_fold(ls).entries.len() ==> (#[trigger] efi_fold(ls).entries[k]).loader_path
            is None,
    decreases ls.len(),
{
    if ls.len() > 0 {
        let prev = ls.drop_last();
        lemma_efi_fold_entries(prev);
        let st = efi_fold(prev);
        let l = trim_end_char(ls.last(), '\r');
        reveal_strlit("BootCurrent:");
        reveal_strlit("Timeout:");
        reveal_strlit("BootOrder:");
        reveal_strlit("Boot");
        if starts_with(l, "BootCurrent:"@) {
            assert(l.take(12)[5] == l[5]);
            assert(!is_entry_line(l));
        } else if starts_with(l, "Timeout:"@) {
            assert(l.take(8)[0] == l[0]);
            if is_entry_line(l) {
                assert(l.take(4)[0] == l[0]);
            }
        } else if starts_with(l, "BootOrder:"@) {
            assert(l.take(10)[4] == l[4]);
            assert(!is_entry_line(l));
        } else if is_entry_line(l) {
            let e = entry_of(l);
            assert(declared_by(e, l));
        } else {
        }
    }
}

/// Reading efibootmgr output gives, in input order, one entry per line
/// that starts with "Boot" and four hex digits: its id is those four
/// characters and it is active exactly when a `*` follows them. An entry
/// has a loader exactly when its device path has one.
pub proof fn law_efi_entries_follow_lines(out: Seq<char>)
    ensures
        parsed_efi(out).entries.len() == entry_lines(lines(out)).len(),
        forall|k: int| 0 <= k < parsed_efi(out).entries.len() ==> {
            &&& declared_by(#[trigger] parsed_efi(out).entries[k], entry_lines(lines(out))[k])
            &&& parsed_efi(out).entries[k].loader_path == match parsed_efi(out).entries[k].device_path {
                Some(d) => loader_of(d),
                None => None,
            }
        },
{
    let ls = lines(out);
    lemma_efi_fold_entries(ls);
    let raw = efi_fold(ls).entries;
    let p = parsed_efi(out).entries;
    assert forall|k: int| 0 <= k < p.len() implies {
        &&& declared_by(#[trigger] p[k], entry_lines(ls)[k])
        &&& p[k].loader_path == match p[k].device_path {
            Some(d) => loader_of(d),
            None => None,
        }
    } by {
        assert(p[k] == with_loader(raw[k]));
        assert(declared_by(raw[k], entry_lines(ls)[k]));
        assert(p[k].id == raw[k].id && p[k].active == raw[k].active);
    }
}

/// The loader is the non-empty text between the device path's first
/// "/File(" and the next ")": a path without "/File(" (such as a firmware
/// volume `FvFile(..)`) or with an empty `File()` has none.
pub proof fn law_loader_is_file_text(d: Seq<char>)
    ensures
        !crate::text::contains_seq(d, "/File("@) ==> loader_of(d) is None,
        loader_of(d) matches Some(x) ==> x.len() > 0 && !x.contains(')')
            && crate::text::contains_seq(d, "/File("@ + x + ")"@),
{
    reveal_strlit("/File(");
    reveal_strlit(")");
    crate::text::lemma_contains_find(d, "/File("@);
    let i = find_seq(d, "/File("@);
    if i >= 0 {
        let rest = d.skip(i + 6);
        crate::text::lemma_index_of_bounds(rest, ')');
        let j = index_of(rest, ')');
        if j > 0 {
            let x = rest.take(j);
            let w = "/File("@ + x + ")"@;
            assert forall|k: int| 0 <= k < x.len() implies x[k] != ')' by {
                assert(x[k] == rest[k]);
            }
            assert(d.subrange(i, i + w.len()) =~= w) by {
                assert(d.subrange(i, i + 6) == "/File("@);
                assert forall|k: int| 0 <= k < w.len() implies d.subrange(i, i + w.len())[k] == w[k] by {
                    if k < 6 {
                        assert(d.subrange(i, i + 6)[k] == d[i + k]);
                    } else {
                        assert(rest[k - 6] == d[i + k]);
                    }
                }
            }
        }
    }
}

} // verus!
