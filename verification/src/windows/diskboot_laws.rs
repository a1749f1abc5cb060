//! What the disk method promises of its readiness report and of the GRUB
//! entry it arms.

use vstd::prelude::*;

use crate::text::contains_seq;
use crate::windows::diskboot::{
    blockers_of, grub_entry, BLOCKER_GRUB, BLOCKER_ISO, BLOCKER_SECURE_BOOT, GRUB_ENTRY_0, GRUB_ENTRY_TITLE,
    RAM_NEEDED_MB,
};

verus! {

/// The disk method is ready exactly when nothing blocks it; a missing ISO
/// is named first, and Secure Boot on or GRUB missing always block.
pub proof fn law_readiness_blockers(iso: bool, sb_off: bool, grub: bool, ram: u64)
    ensures
        blockers_of(iso, sb_off, grub, ram).len() == 0 <==> (iso && sb_off && grub && ram >= RAM_NEEDED_MB),
        !iso ==> contains_seq(blockers_of(iso, sb_off, grub, ram)[0], "ISO"@),
        !sb_off ==> blockers_of(iso, sb_off, grub, ram).contains(BLOCKER_SECURE_BOOT@),
        !grub ==> blockers_of(iso, sb_off, grub, ram).contains(BLOCKER_GRUB@),
{
    reveal_strlit("ISO do Windows não encontrada em ~/Downloads (> 3 GiB, nome contendo 'win')");
    reveal_strlit("ISO");
    let b = blockers_of(iso, sb_off, grub, ram);
    if !iso {
        assert(b[0] == BLOCKER_ISO@);
        assert(BLOCKER_ISO@.subrange(0, 3) =~= "ISO"@);
        assert(BLOCKER_ISO@.subrange(0, 0 + "ISO"@.len() as int) == "ISO"@);
    }
    let k: int = if iso { 0 } else { 1 };
    if !sb_off {
        assert(b[k] == BLOCKER_SECURE_BOOT@);
    }
    let m: int = k + if sb_off { 0int } else { 1int };
    if !grub {
        assert(b[m] == BLOCKER_GRUB@);
    }
}

/// Whatever the ISO, the GRUB entry is a menu entry titled exactly
/// [`GRUB_ENTRY_TITLE`], the title `grub-reboot` is given to arm it.
pub proof fn law_grub_entry_has_the_armed_title(iso: Seq<char>)
    ensures
        contains_seq(grub_entry(iso), "menuentry \""@ + GRUB_ENTRY_TITLE@ + "\""@),
{
    reveal_strlit("#!/bin/sh\nexec tail -n +3 $0\n# SYSFORGE — instalação sem pendrive (ISO em disco + wimboot na RAM).\n# Remover este arquivo + `update-grub` remove a entrada por inteiro.\nmenuentry \"SYSFORGE — Instalar Windows 11 (sem pendrive)\" {\n    set isofile=\"");
    reveal_strlit("SYSFORGE — Instalar Windows 11 (sem pendrive)");
    reveal_strlit("menuentry \"");
    reveal_strlit("\"");
    let w = "menuentry \""@ + GRUB_ENTRY_TITLE@ + "\""@;
    let e = grub_entry(iso);
    assert(e.subrange(168, 168 + w.len() as int) =~= w) by {
        assert forall|j: int| 0 <= j < w.len() implies e.subrange(168, 168 + w.len() as int)[j] == w[j] by {
            assert(e[168 + j] == GRUB_ENTRY_0@[168 + j]);
        }
    }
}

} // verus!
