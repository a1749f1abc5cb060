//! The decisions of the Windows 11 apply flow (`sysforge winstall --apply`):
//! the typed confirmation of the full wipe, where `autounattend.xml` goes,
//! which ISO is copied and whether the copy is needed, how the copy's
//! progress is reported, and whether BootNext may be armed. The flow's
//! writes, copies and daemon calls happen around these.

use vstd::prelude::*;

use crate::error::{error_code, ErrorDomain, SysforgeError};
use crate::executor::{file_name_of, file_name_text, join_path, path_join};
use crate::text::{clone_string, opt_view, trim};
use crate::windows::checklist::{IsoFile, IsoV};
use crate::windows::media::{MediaV, RemovableMedia};

verus! {

/// The word the destructive full-wipe mode asks the user to type.
pub const WIPE_CONFIRMATION: &'static str = "APAGAR";

/// Did the user type the confirmation word (surrounding blanks ignored)?
pub fn wipe_confirmed(input: &str) -> (b: bool)
    ensures
        b == (trim(input@) == WIPE_CONFIRMATION@),
{
    crate::handlers::typed_confirmed(input, WIPE_CONFIRMATION)
}

/// The mount point of the first Ventoy stick that is mounted.
pub open spec fn ventoy_mount(media: Seq<MediaV>) -> Option<Seq<char>>
    decreases media.len(),
{
    if media.len() == 0 {
        None
    } else if media[0].is_ventoy && media[0].mounted_at is Some {
        media[0].mounted_at
    } else if media[0].is_ventoy {
        None
    } else {
        ventoy_mount(media.drop_first())
    }
}

/// The mount point of the first Ventoy stick, when that stick is mounted
/// (`find(is_ventoy).and_then(mounted_at)`).
pub fn ventoy_mount_of(media: &Vec<RemovableMedia>) -> (m: Option<String>)
    ensures
        opt_view(m) == ventoy_mount(media@.map_values(|x: RemovableMedia| x@)),
{
    let ghost mv = media@.map_values(|x: RemovableMedia| x@);
    let mut i: usize = 0;
    assert(mv.skip(0) =~= mv);
    while i < media.len()
        invariant
            i <= media.len(),
            mv == media@.map_values(|x: RemovableMedia| x@),
            ventoy_mount(mv) == ventoy_mount(mv.skip(i as int)),
        decreases media.len() - i,
    {
        assert(mv.skip(i as int)[0] == media@[i as int]@);
        if media[i].is_ventoy {
            return crate::text::clone_opt(&media[i].mounted_at);
        }
        assert(mv.skip(i as int).drop_first() =~= mv.skip(i + 1));
        i += 1;
    }
    assert(mv.skip(i as int).len() == 0);
    None
}

/// Where `autounattend.xml` is written: the root of the Ventoy stick (the
/// Windows installer looks for it on removable media), else the user's
/// Downloads folder; nowhere without a home directory.
pub open spec fn unattend_target_path(ventoy: Option<Seq<char>>, home: Option<Seq<char>>) -> Option<Seq<char>> {
    match ventoy {
        Some(m) => Some(path_join(m, "autounattend.xml"@)),
        None => match home {
            Some(h) => Some(path_join(path_join(h, "Downloads"@), "autounattend.xml"@)),
            None => None,
        },
    }
}

/// The path of `autounattend.xml`; `SF-IO-002` without a Ventoy mount and
/// without a home directory.
pub fn unattend_target(ventoy: &Option<String>, home: &Option<String>) -> (r: Result<String, SysforgeError>)
    ensures
        match unattend_target_path(opt_view(*ventoy), opt_view(*home)) {
            Some(p) => r matches Ok(s) && s@ == p,
            None => r matches Err(e) && e.code@ == error_code(ErrorDomain::Io, 2) && e.message@
                == "HOME não definido"@,
        },
{
    match ventoy {
        Some(m) => Ok(join_path(m.as_str(), "autounattend.xml")),
        None => match home {
            Some(h) => {
                let d = join_path(h.as_str(), "Downloads");
                Ok(join_path(d.as_str(), "autounattend.xml"))
            },
            None => Err(SysforgeError::new(ErrorDomain::Io, 2, "HOME não definido")),
        },
    }
}

/// The first ISO that looks like Windows 11: its path and name.
pub open spec fn first_windows11(isos: Seq<IsoV>) -> Option<(Seq<char>, Seq<char>)>
    decreases isos.len(),
{
    if isos.len() == 0 {
        None
    } else if isos[0].looks_like_windows11 {
        Some((isos[0].path, isos[0].name))
    } else {
        first_windows11(isos.drop_first())
    }
}

/// The ISO to copy: the one given explicitly (named by its file name, or
/// by the whole path when it has none), else the first found that looks
/// like Windows 11.
pub open spec fn iso_choice_of(explicit: Option<Seq<char>>, isos: Seq<IsoV>) -> Option<(Seq<char>, Seq<char>)> {
    match explicit {
        Some(p) => Some((p, match file_name_text(p) {
            Some(n) => n,
            None => p,
        })),
        None => first_windows11(isos),
    }
}

pub fn iso_choice(explicit: &Option<String>, isos: &Vec<IsoFile>) -> (r: Option<(String, String)>)
    ensures
        match (r, iso_choice_of(opt_view(*explicit), isos@.map_values(|x: IsoFile| x@))) {
            (None, None) => true,
            (Some((p, n)), Some((sp, sn))) => p@ == sp && n@ == sn,
            _ => false,
        },
{
    match explicit {
        Some(p) => {
            let name = match file_name_of(p.as_str()) {
                Some(n) => n,
                None => clone_string(p),
            };
            Some((clone_string(p), name))
        },
        None => {
            let ghost iv = isos@.map_values(|x: IsoFile| x@);
            let mut i: usize = 0;
            assert(iv.skip(0) =~= iv);
            while i < isos.len()
                invariant
                    i <= isos.len(),
                    *explicit is None,
                    iv == isos@.map_values(|x: IsoFile| x@),
                    first_windows11(iv) == first_windows11(iv.skip(i as int)),
                decreases isos.len() - i,
            {
                assert(iv.skip(i as int)[0] == isos@[i as int]@);
                if isos[i].looks_like_windows11 {
                    let a = clone_string(&isos[i].path);
                    let b = clone_string(&isos[i].name);
                    assert(first_windows11(iv) == Some((isos@[i as int].path@, isos@[i as int].name@)));
                    return Some((a, b));
                }
                assert(iv.skip(i as int).drop_first() =~= iv.skip(i + 1));
                i += 1;
            }
            assert(iv.skip(i as int).len() == 0);
            None
        },
    }
}

/// The ISO is already on the stick: same non-zero size at the destination.
pub fn iso_already_copied(src_size: u64, dst_size: u64) -> (b: bool)
    ensures
        b == (src_size > 0 && dst_size == src_size),
{
    src_size > 0 && dst_size == src_size
}

/// The percentage to report after `done` of `total` bytes, when it moved
/// at least five points past the last one reported; nothing for an empty
/// source.
pub open spec fn progress_report_of(done: nat, total: nat, last_pct: nat) -> Option<nat> {
    if total > 0 && done * 100 / total >= last_pct + 5 {
        Some(done * 100 / total)
    } else {
        None
    }
}

pub fn progress_report(done: u64, total: u64, last_pct: u64) -> (r: Option<u64>)
    requires
        done * 100 <= u64::MAX,
        last_pct + 5 <= u64::MAX,
    ensures
        match (r, progress_report_of(done as nat, total as nat, last_pct as nat)) {
            (None, None) => true,
            (Some(p), Some(q)) => p == q,
            _ => false,
        },
{
    if total > 0 {
        let pct = done * 100 / total;
        if pct >= last_pct + 5 {
            return Some(pct);
        }
    }
    None
}

/// What the flow does about BootNext.
#[derive(Debug, Clone, PartialEq, Eq)]
pub enum BootNextPlan {
    /// No stick connected: arming "USB" without media would trap the next
    /// boot, so nothing is armed.
    NoMedia,
    /// The firmware has no dedicated USB entry: the user picks the stick in
    /// the firmware's boot menu.
    NoUsbEntry,
    /// Arm BootNext on this entry (one-shot, BootOrder untouched).
    Arm(String),
}

/// BootNext is armed only with a stick connected and a USB entry to arm.
pub fn bootnext_plan(media_count: usize, usb_entry: &Option<String>) -> (p: BootNextPlan)
    ensures
        media_count == 0 ==> p is NoMedia,
        media_count > 0 ==> match usb_entry {
            Some(id) => p matches BootNextPlan::Arm(x) && x@ == id@,
            None => p is NoUsbEntry,
        },
{
    if media_count == 0 {
        BootNextPlan::NoMedia
    } else {
        match usb_entry {
            Some(id) => BootNextPlan::Arm(clone_string(id)),
            None => BootNextPlan::NoUsbEntry,
        }
    }
}

} // verus!
