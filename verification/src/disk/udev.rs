//! Enrichment from the udev database (`/run/udev/data/b{MAJOR}:{MINOR}`).
//!
//! As a plain user, lsblk sometimes hides a disk's serial/model, but the
//! udev database is readable by anyone — and is where lsblk gets them.

use vstd::prelude::*;

use crate::disk::lsblk::{trimmed_nonempty, LsblkDevice};
use crate::props::PropertyMap;
use crate::text::{
    chars_of, clone_string, lines, lines_of, opt_view, split_once, split_once_of, starts_with,
    starts_with_chars, string_from, strip_prefix, trim, trim_chars,
};

verus! {

/// The `E:KEY=VALUE` properties of an udev database entry.
pub open spec fn udev_props(ls: Seq<Seq<char>>) -> Map<Seq<char>, Seq<char>>
    decreases ls.len(),
{
    if ls.len() == 0 {
        Map::empty()
    } else {
        let m = udev_props(ls.drop_last());
        match strip_prefix(ls.last(), "E:"@) {
            Some(kv) => match split_once(kv, '=') {
                Some((k, v)) => m.insert(trim(k), trim(v)),
                None => m,
            },
            None => m,
        }
    }
}

/// Properties of an udev database entry, from its text.
pub fn udev_properties(content: &str) -> (m: PropertyMap)
    ensures
        m.view() == udev_props(lines(content@)),
{
    let text = chars_of(content);
    let ls = lines_of(text.as_slice());
    let ghost all = lines(content@);
    let prefix = chars_of("E:");
    proof {
        reveal_strlit("E:");
    }
    let mut m = PropertyMap::new();
    let mut i: usize = 0;
    assert(all.take(0) =~= Seq::<Seq<char>>::empty());
    while i < ls.len()
        invariant
            i <= ls.len() == all.len(),
            all == lines(content@),
            prefix@ == "E:"@,
            prefix@.len() == 2,
            forall|k: int| 0 <= k < ls@.len() ==> #[trigger] ls@[k]@ == all[k],
            m.view() == udev_props(all.take(i as int)),
        decreases ls.len() - i,
    {
        proof {
            assert(all.take(i + 1).drop_last() =~= all.take(i as int));
        }
        let line = ls[i].as_slice();
        if starts_with_chars(line, prefix.as_slice()) {
            let kv = crate::text::copy_range(line, 2, line.len());
            proof {
                assert(line@.subrange(2, line@.len() as int) =~= line@.skip(2));
            }
            match split_once_of(kv.as_slice(), '=') {
                Some((k, v)) => {
                    let kt = trim_chars(k.as_slice());
                    let vt = trim_chars(v.as_slice());
                    m.insert(string_from(kt.as_slice()), string_from(vt.as_slice()));
                },
                None => {},
            }
        }
        i += 1;
    }
    proof {
        assert(all.take(ls.len() as int) =~= all);
    }
    m
}

/// The value a device field takes after enrichment: kept when it has
/// non-blank text, else the udev property when there is one.
pub open spec fn enriched(field: Option<String>, props: Map<Seq<char>, Seq<char>>, key: Seq<char>) -> Option<Seq<char>> {
    if trimmed_nonempty(field) is None && props.contains_key(key) {
        Some(props[key])
    } else {
        opt_view(field)
    }
}

/// Fills a missing serial/model from udev (`ID_SERIAL_SHORT` / `ID_MODEL`,
/// present for every real disk). `props` are the properties of the
/// device's entry; a device without `MAJ:MIN` is left as it is, and no
/// field but the serial and the model ever changes.
pub fn enrich_from_udev(dev: &mut LsblkDevice, props: &PropertyMap)
    ensures
        old(dev).majmin is None ==> *final(dev) == *old(dev),
        old(dev).majmin is Some ==> opt_view(final(dev).serial) == enriched(
            old(dev).serial,
            props.view(),
            "ID_SERIAL_SHORT"@,
        ) && opt_view(final(dev).model) == enriched(old(dev).model, props.view(), "ID_MODEL"@)
            && *final(dev) == (LsblkDevice {
                serial: final(dev).serial,
                model: final(dev).model,
                ..*old(dev)
            }),
{
    if dev.majmin.is_none() {
        return;
    }
    if dev.serial_trimmed().is_none() {
        match props.get("ID_SERIAL_SHORT") {
            Some(serial) => {
                dev.serial = Some(clone_string(serial));
            },
            None => {},
        }
    }
    if dev.model_trimmed().is_none() {
        match props.get("ID_MODEL") {
            Some(model) => {
                dev.model = Some(clone_string(model));
            },
            None => {},
        }
    }
}

} // verus!
