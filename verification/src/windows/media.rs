//! Removable media (USB sticks, SD cards): the disks that lsblk marks as
//! removable, with the first mounted partition and whether it is a Ventoy
//! stick (a `ventoy/` directory at the root of that mount).

use vstd::prelude::*;

use crate::disk::lsblk::{mounts_of, trimmed_nonempty, LsblkDevice};
use crate::text::{clone_opt, clone_string, opt_view, push_str, str_eq};

verus! {

#[derive(Debug, Clone)]
pub struct RemovableMedia {
    pub name: String,
    pub path: String,
    pub size_bytes: u64,
    pub fstype: Option<String>,
    /// Mount point of the first mounted partition, if any.
    pub mounted_at: Option<String>,
    /// A `ventoy/` directory exists at the root of that mount.
    pub is_ventoy: bool,
    pub model: Option<String>,
}

/// Abstract removable medium.
#[verifier::ext_equal]
pub struct MediaV {
    pub name: Seq<char>,
    pub path: Seq<char>,
    pub size_bytes: u64,
    pub fstype: Option<Seq<char>>,
    pub mounted_at: Option<Seq<char>>,
    pub is_ventoy: bool,
    pub model: Option<Seq<char>>,
}

impl View for RemovableMedia {
    type V = MediaV;

    open spec fn view(&self) -> MediaV {
        MediaV {
            name: self.name@,
            path: self.path@,
            size_bytes: self.size_bytes,
            fstype: opt_view(self.fstype),
            mounted_at: opt_view(self.mounted_at),
            is_ventoy: self.is_ventoy,
            model: opt_view(self.model),
        }
    }
}

/// The first partition that is mounted: its filesystem and first mount.
pub open spec fn first_mounted(children: Seq<LsblkDevice>) -> Option<(Option<Seq<char>>, Seq<char>)>
    decreases children.len(),
{
    if children.len() == 0 {
        None
    } else if mounts_of(children[0]).len() > 0 {
        Some((opt_view(children[0].fstype), mounts_of(children[0])[0]))
    } else {
        first_mounted(children.drop_first())
    }
}

/// A disk that lsblk reports as removable.
pub open spec fn is_removable_disk(d: LsblkDevice) -> bool {
    opt_view(d.kind) == Some("disk"@) && d.rm == Some(true)
}

/// The medium a removable disk stands for; `ventoy_mounts` are the mount
/// points under which a `ventoy/` directory was found.
pub open spec fn media_of(d: LsblkDevice, ventoy_mounts: Seq<Seq<char>>) -> MediaV {
    let (fstype, mounted_at) = match first_mounted(d.children@) {
        Some((f, m)) => (f, Some(m)),
        None => (
            if d.children@.len() > 0 {
                opt_view(d.children@[0].fstype)
            } else {
                None
            },
            None,
        ),
    };
    MediaV {
        name: d.name@,
        path: match d.path {
            Some(p) => p@,
            None => "/dev/"@ + d.name@,
        },
        size_bytes: d.size,
        fstype,
        mounted_at,
        is_ventoy: match mounted_at {
            Some(m) => ventoy_mounts.contains(m),
            None => false,
        },
        model: trimmed_nonempty(d.model),
    }
}

/// The removable media among the devices, in order.
pub open spec fn removable_media(devs: Seq<LsblkDevice>, ventoy_mounts: Seq<Seq<char>>) -> Seq<MediaV>
    decreases devs.len(),
{
    if devs.len() == 0 {
        seq![]
    } else {
        let rest = removable_media(devs.drop_last(), ventoy_mounts);
        if is_removable_disk(devs.last()) {
            rest.push(media_of(devs.last(), ventoy_mounts))
        } else {
            rest
        }
    }
}

fn first_mounted_of(children: &Vec<LsblkDevice>) -> (r: Option<(Option<String>, String)>)
    ensures
        match first_mounted(children@) {
            None => r is None,
            Some((f, m)) => r matches Some((rf, rm)) && opt_view(rf) == f && rm@ == m,
        },
{
    let mut i: usize = 0;
    proof {
        assert(children@.skip(0) =~= children@);
    }
    while i < children.len()
        invariant
            i <= children.len(),
            first_mounted(children@) == first_mounted(children@.skip(i as int)),
        decreases children.len() - i,
    {
        proof {
            assert(children@.skip(i as int).drop_first() =~= children@.skip(i + 1));
        }
        let ms = children[i].mounts();
        proof {
            assert(children@.skip(i as int)[0] == children@[i as int]);
        }
        if ms.len() > 0 {
            proof {
                assert(ms@.map_values(|m: String| m@)[0] == ms@[0]@);
            }
            return Some((clone_opt(&children[i].fstype), clone_string(&ms[0])));
        }
        i += 1;
    }
    None
}

fn contains_str(v: &Vec<String>, s: &String) -> (r: bool)
    ensures
        r == v@.map_values(|m: String| m@).contains(s@),
{
    let mut i: usize = 0;
    while i < v.len()
        invariant
            i <= v.len(),
            forall|k: int| 0 <= k < i ==> v@[k]@ != s@,
        decreases v.len() - i,
    {
        if str_eq(v[i].as_str(), s.as_str()) {
            proof {
                assert(v@.map_values(|m: String| m@)[i as int] == s@);
            }
            return true;
        }
        i += 1;
    }
    proof {
        let w = v@.map_values(|m: String| m@);
        assert forall|k: int| 0 <= k < w.len() implies #[trigger] w[k] != s@ by {
            assert(w[k] == v@[k]@);
        }
    }
    false
}

fn media_entry(d: &LsblkDevice, ventoy_mounts: &Vec<String>) -> (m: RemovableMedia)
    ensures
        m@ == media_of(*d, ventoy_mounts@.map_values(|s: String| s@)),
{
    let (fstype, mounted_at) = match first_mounted_of(&d.children) {
        Some((f, m)) => (f, Some(m)),
        None => (
            if d.children.len() > 0 {
                clone_opt(&d.children[0].fstype)
            } else {
                None
            },
            None,
        ),
    };
    let is_ventoy = match &mounted_at {
        Some(m) => contains_str(ventoy_mounts, m),
        None => false,
    };
    let path = match &d.path {
        Some(p) => clone_string(p),
        None => {
            let mut p = String::from_str("/dev/");
            push_str(&mut p, d.name.as_str());
            p
        },
    };
    let m = RemovableMedia {
        name: clone_string(&d.name),
        path,
        size_bytes: d.size,
        fstype,
        mounted_at,
        is_ventoy,
        model: d.model_trimmed(),
    };
    assert(m@ =~= media_of(*d, ventoy_mounts@.map_values(|s: String| s@)));
    m
}

/// The removable disks among `devices` (the lsblk tree), as media.
/// `ventoy_mounts` are the mount points under which a `ventoy/` directory
/// exists.
pub fn list_removable_media(devices: &Vec<LsblkDevice>, ventoy_mounts: &Vec<String>) -> (r: Vec<RemovableMedia>)
    ensures
        r@.map_values(|m: RemovableMedia| m@) == removable_media(devices@, ventoy_mounts@.map_values(|s: String| s@)),
{
    let ghost vm = ventoy_mounts@.map_values(|s: String| s@);
    let mut out: Vec<RemovableMedia> = Vec::new();
    let mut i: usize = 0;
    while i < devices.len()
        invariant
            i <= devices.len(),
            vm == ventoy_mounts@.map_values(|s: String| s@),
            out@.map_values(|m: RemovableMedia| m@) == removable_media(devices@.take(i as int), vm),
        decreases devices.len() - i,
    {
        proof {
            assert(devices@.take(i + 1).drop_last() =~= devices@.take(i as int));
            assert(devices@.take(i + 1).last() == devices@[i as int]);
        }
        let d = &devices[i];
        let rm = match d.rm {
            Some(b) => b,
            None => false,
        };
        if d.is_disk() && rm {
            out.push(media_entry(d, ventoy_mounts));
        }
        proof {
            assert(out@.map_values(|m: RemovableMedia| m@) =~= removable_media(devices@.take(i + 1), vm));
        }
        i += 1;
    }
    proof {
        assert(devices@.take(devices.len() as int) =~= devices@);
    }
    out
}

/// The removable media are the removable disks among the devices, in
/// their order, each read by [`media_of`] (so a fixed disk never appears);
/// a medium is Ventoy only where it is mounted.
pub proof fn law_removable_media_in_order(devs: Seq<LsblkDevice>, ventoy_mounts: Seq<Seq<char>>)
    ensures
        removable_media(devs, ventoy_mounts) == devs.filter(|d: LsblkDevice| is_removable_disk(d)).map_values(
            |d: LsblkDevice| media_of(d, ventoy_mounts),
        ),
        forall|k: int| 0 <= k < removable_media(devs, ventoy_mounts).len() ==> (#[trigger] removable_media(
            devs,
            ventoy_mounts,
        )[k]).is_ventoy ==> removable_media(devs, ventoy_mounts)[k].mounted_at is Some,
    decreases devs.len(),
{
    reveal(Seq::filter);
    if devs.len() > 0 {
        law_removable_media_in_order(devs.drop_last(), ventoy_mounts);
        let f = devs.drop_last().filter(|d: LsblkDevice| is_removable_disk(d));
        if is_removable_disk(devs.last()) {
            assert(f.push(devs.last()).map_values(|d: LsblkDevice| media_of(d, ventoy_mounts)) =~= f.map_values(
                |d: LsblkDevice| media_of(d, ventoy_mounts),
            ).push(media_of(devs.last(), ventoy_mounts)));
        }
    }
}

} // verus!
