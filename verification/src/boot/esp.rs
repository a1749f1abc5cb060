//! ESP (EFI System Partition): discovery in `/proc/mounts`. Writing to the
//! ESP is restricted (umask=0077 ⇒ root only), so the desktop app never
//! writes there directly; this module only reads the state honestly.

use vstd::prelude::*;

use crate::text::{
    chars_of, contains_chars, contains_seq, find_seq, lines, lines_of, opt_view, push_chars,
    string_from, words, words_of, find_at, starts_with, replace_all,
};
use crate::Availability;

verus! {

pub const ESP_MOUNT_POINT: &'static str = "/boot/efi";

#[derive(Debug, Clone)]
pub struct EspInfo {
    pub mounted: bool,
    pub mount_point: Option<String>,
    pub device: Option<String>,
    pub fs_type: Option<String>,
    pub mount_options: Option<String>,
    /// True when umask=0077/fmask=0077 ⇒ writes only through the daemon (root).
    pub restricted_permissions: bool,
    pub total_bytes: u64,
    pub free_bytes: u64,
}

impl EspInfo {
    pub fn availability(&self) -> (a: Availability)
        ensures
            !self.mounted ==> (a matches Availability::Unavailable { reason_code, reason }
                && reason_code@ == "SF-BOOT-002"@ && reason@ == "ESP (/boot/efi) não está montada"@),
            self.mounted ==> a is Available,
    {
        if !self.mounted {
            return Availability::unavailable("SF-BOOT-002", "ESP (/boot/efi) não está montada");
        }
        Availability::Available
    }
}

/// A `/proc/mounts` line: "dev  mountpoint  fstype  options  0 0".
#[derive(Debug, Clone, PartialEq, Eq)]
pub struct MountEntry {
    pub device: String,
    pub mount_point: String,
    pub fs_type: String,
    pub options: String,
}

/// `/proc/mounts` escapes a space as `\040` and a tab as `\011`.
pub open spec fn unescaped_mount(s: Seq<char>) -> Seq<char> {
    replace_all(replace_all(s, "\\040"@, " "@), "\\011"@, "\t"@)
}

/// `s.replace(from, to)` for a non-empty pattern.
fn replace_exec(s: &[char], from: &[char], to: &[char]) -> (r: Vec<char>)
    requires
        from.len() > 0,
    ensures
        r@ == replace_all(s@, from@, to@),
{
    let mut out: Vec<char> = Vec::new();
    let mut i: usize = 0;
    assert(s@.skip(0) =~= s@);
    loop
        invariant
            i <= s.len(),
            from.len() > 0,
            replace_all(s@, from@, to@) == out@ + replace_all(s@.skip(i as int), from@, to@),
        decreases s.len() - i,
    {
        let ghost t = s@.skip(i as int);
        match find_at(s, i, from) {
            None => {
                let rest = crate::text::copy_range(s, i, s.len());
                let ghost before = out@;
                out.append(&mut rest.clone());
                proof {
                    assert(rest@ =~= t);
                }
                assert(out@ =~= before + t);
                return out;
            },
            Some(k) => {
                proof {
                    crate::text::lemma_contains_find(t, from@);
                }
                let head = crate::text::copy_range(s, i, k);
                let ghost before = out@;
                let mut h = head.clone();
                out.append(&mut h);
                let mut tt = crate::text::copy_range(to, 0, to.len());
                out.append(&mut tt);
                proof {
                    assert(head@ =~= t.take(k - i));
                    assert(to@.subrange(0, to@.len() as int) =~= to@);
                    assert(t.skip(k - i + from@.len()) =~= s@.skip(k + from@.len()));
                }
                i = k + from.len();
            },
        }
    }
}

fn unescape_mount(s: &[char]) -> (r: Vec<char>)
    ensures
        r@ == unescaped_mount(s@),
{
    let a = chars_of("\\040");
    let b = chars_of(" ");
    let c = chars_of("\\011");
    let d = chars_of("\t");
    proof {
        reveal_strlit("\\040");
        reveal_strlit("\\011");
    }
    let first = replace_exec(s, a.as_slice(), b.as_slice());
    replace_exec(first.as_slice(), c.as_slice(), d.as_slice())
}

/// What a mounts line says: device, unescaped mount point, type and
/// options (empty when absent); absent with fewer than three fields.
pub open spec fn mount_entry_of(line: Seq<char>) -> Option<(Seq<char>, Seq<char>, Seq<char>, Seq<char>)> {
    let w = words(line);
    if w.len() < 3 {
        None
    } else {
        Some((w[0], unescaped_mount(w[1]), w[2], if w.len() > 3 { w[3] } else { seq![] }))
    }
}

pub fn parse_mounts_line(line: &str) -> (r: Option<MountEntry>)
    ensures
        match mount_entry_of(line@) {
            None => r is None,
            Some((d, m, f, o)) => r matches Some(e) && e.device@ == d && e.mount_point@ == m
                && e.fs_type@ == f && e.options@ == o,
        },
{
    let v = chars_of(line);
    let w = words_of(v.as_slice());
    if w.len() < 3 {
        return None;
    }
    let mp = unescape_mount(w[1].as_slice());
    let options = if w.len() > 3 {
        string_from(w[3].as_slice())
    } else {
        String::new()
    };
    Some(MountEntry {
        device: string_from(w[0].as_slice()),
        mount_point: string_from(mp.as_slice()),
        fs_type: string_from(w[2].as_slice()),
        options,
    })
}

/// Options that restrict the ESP to root.
pub open spec fn restricted_options(o: Seq<char>) -> bool {
    contains_seq(o, "umask=0077"@) || contains_seq(o, "fmask=0077"@) || contains_seq(
        o,
        "uid=0,gid=0"@,
    )
}

/// The first mounts line whose mount point is `/boot/efi`.
pub open spec fn esp_line(ls: Seq<Seq<char>>) -> Option<(Seq<char>, Seq<char>, Seq<char>, Seq<char>)>
    decreases ls.len(),
{
    if ls.len() == 0 {
        None
    } else {
        match mount_entry_of(ls[0]) {
            Some((d, m, f, o)) => if m == "/boot/efi"@ {
                Some((d, m, f, o))
            } else {
                esp_line(ls.drop_first())
            },
            None => esp_line(ls.drop_first()),
        }
    }
}

/// The ESP as `/proc/mounts` (`mounts`) and `statvfs` of the mount point
/// (`stats`, total and free bytes, when it could be read) describe it.
pub fn read_esp(mounts: &str, stats: Option<(u64, u64)>) -> (info: EspInfo)
    ensures
        match esp_line(lines(mounts@)) {
            None => !info.mounted && info.device is None && info.total_bytes == 0,
            Some((d, m, f, o)) => info.mounted && opt_view(info.device) == Some(d) && opt_view(
                info.mount_point,
            ) == Some(m) && opt_view(info.fs_type) == Some(f) && opt_view(info.mount_options)
                == Some(o) && info.restricted_permissions == restricted_options(o) && match stats {
                Some((t, fr)) => info.total_bytes == t && info.free_bytes == fr,
                None => info.total_bytes == 0 && info.free_bytes == 0,
            },
        },
{
    let mut info = EspInfo {
        mounted: false,
        mount_point: None,
        device: None,
        fs_type: None,
        mount_options: None,
        restricted_permissions: false,
        total_bytes: 0,
        free_bytes: 0,
    };
    let text = chars_of(mounts);
    let ls = lines_of(text.as_slice());
    let ghost all = lines(mounts@);
    let mut i: usize = 0;
    assert(all.skip(0) =~= all);
    while i < ls.len()
        invariant
            i <= ls.len() == all.len(),
            all == lines(mounts@),
            forall|k: int| 0 <= k < ls@.len() ==> #[trigger] ls@[k]@ == all[k],
            esp_line(all) == esp_line(all.skip(i as int)),
            !info.mounted && info.device is None && info.total_bytes == 0 && info.free_bytes == 0,
        decreases ls.len() - i,
    {
        proof {
            assert(all.skip(i as int)[0] == all[i as int]);
            assert(all.skip(i as int).drop_first() =~= all.skip(i + 1));
        }
        let line = string_from(ls[i].as_slice());
        match parse_mounts_line(line.as_str()) {
            Some(entry) => {
                proof {
                    assert(line@ == all[i as int]);
                    assert(esp_line(all.skip(i as int)) == (if entry.mount_point@ == "/boot/efi"@ {
                        Some((entry.device@, entry.mount_point@, entry.fs_type@, entry.options@))
                    } else {
                        esp_line(all.skip(i + 1))
                    }));
                }
                if crate::text::str_eq(entry.mount_point.as_str(), ESP_MOUNT_POINT) {
                    let ov = chars_of(entry.options.as_str());
                    let p1 = chars_of("umask=0077");
                    let p2 = chars_of("fmask=0077");
                    let p3 = chars_of("uid=0,gid=0");
                    let restricted = contains_chars(ov.as_slice(), p1.as_slice()) || contains_chars(
                        ov.as_slice(),
                        p2.as_slice(),
                    ) || contains_chars(ov.as_slice(), p3.as_slice());
                    match stats {
                        Some((total, free)) => {
                            info.total_bytes = total;
                            info.free_bytes = free;
                        },
                        None => {},
                    }
                    info.mounted = true;
                    info.mount_point = Some(entry.mount_point);
                    info.device = Some(entry.device);
                    info.fs_type = Some(entry.fs_type);
                    info.mount_options = Some(entry.options);
                    info.restricted_permissions = restricted;
                    proof {
                        assert(esp_line(lines(mounts@)) == Some((info.device->0@, info.mount_point->0@, info.fs_type->0@, info.mount_options->0@)));
                    }
                    return info;
                }
            },
            None => {
                proof {
                    assert(line@ == all[i as int]);
                    assert(esp_line(all.skip(i as int)) == esp_line(all.skip(i + 1)));
                }
            },
        }
        i += 1;
    }
    proof {
        assert(all.skip(i as int).len() == 0);
    }
    info
}

} // verus!
