//! The live system: OS, kernel, memory, CPU, UEFI, Secure Boot, TPM,
//! battery/AC. The files are read at the edge (`/etc/os-release`,
//! `/proc/meminfo`, `/proc/cpuinfo`, the SecureBoot efivar); every parser
//! here is a pure function of their text.

use vstd::prelude::*;

use crate::props::PropertyMap;
use crate::text::{
    chars_of, clone_string, copy_range, lines, lines_of, next_word, opt_view, parse_u64,
    parse_u64_range, split_once, split_once_of, starts_with, starts_with_chars, string_from, trim,
    trim_char, trim_char_of, trim_chars, trim_string, words,
};

verus! {

/// SecureBoot variable (EFI_GLOBAL_VARIABLE namespace).
pub const EFIVAR_SECURE_BOOT: &'static str =
    "/sys/firmware/efi/efivars/SecureBoot-8be4df61-93ca-11d2-aa0d-00e098032b8c";
pub const SYS_CLASS_TPM: &'static str = "/sys/class/tpm";
pub const SYS_POWER_SUPPLY: &'static str = "/sys/class/power_supply";

#[derive(Debug, Clone, Default)]
pub struct OsInfo {
    pub id: Option<String>,
    pub name: Option<String>,
    pub pretty_name: Option<String>,
    pub version_id: Option<String>,
    pub version_codename: Option<String>,
    pub build_id: Option<String>,
    pub home_url: Option<String>,
}

/// The value of an os-release line: trimmed, then without surrounding
/// double quotes, then without surrounding single quotes.
pub open spec fn release_value(v: Seq<char>) -> Seq<char> {
    trim_char(trim_char(trim(v), '"'), '\'')
}

/// The `KEY=VALUE` pairs of `/etc/os-release` (blank lines and `#`
/// comments skipped; values may be quoted).
pub open spec fn os_release_props(ls: Seq<Seq<char>>) -> Map<Seq<char>, Seq<char>>
    decreases ls.len(),
{
    if ls.len() == 0 {
        Map::empty()
    } else {
        let m = os_release_props(ls.drop_last());
        let t = trim(ls.last());
        if t.len() == 0 || t[0] == '#' {
            m
        } else {
            match split_once(t, '=') {
                Some((k, v)) => m.insert(trim(k), release_value(v)),
                None => m,
            }
        }
    }
}

/// Parser of /etc/os-release.
pub fn parse_os_release(content: &str) -> (m: PropertyMap)
    ensures
        m.view() == os_release_props(lines(content@)),
{
    let text = chars_of(content);
    let ls = lines_of(text.as_slice());
    let ghost all = lines(content@);
    let mut m = PropertyMap::new();
    let mut i: usize = 0;
    assert(all.take(0) =~= Seq::<Seq<char>>::empty());
    while i < ls.len()
        invariant
            i <= ls.len() == all.len(),
            all == lines(content@),
            forall|k: int| 0 <= k < ls@.len() ==> #[trigger] ls@[k]@ == all[k],
            m.view() == os_release_props(all.take(i as int)),
        decreases ls.len() - i,
    {
        proof {
            assert(all.take(i + 1).drop_last() =~= all.take(i as int));
        }
        let t = trim_chars(ls[i].as_slice());
        if t.len() > 0 && t[0] != '#' {
            match split_once_of(t.as_slice(), '=') {
                Some((k, v)) => {
                    let kt = trim_chars(k.as_slice());
                    let v1 = trim_chars(v.as_slice());
                    let v2 = trim_char_of(v1.as_slice(), '"');
                    let v3 = trim_char_of(v2.as_slice(), '\'');
                    m.insert(string_from(kt.as_slice()), string_from(v3.as_slice()));
                },
                None => {},
            }
        }
        i += 1;
    }
    proof {
        assert(all.take(ls.len() as int) =~= all);
    }
    m
}

/// The value of a key, when present.
pub open spec fn lookup(m: Map<Seq<char>, Seq<char>>, k: Seq<char>) -> Option<Seq<char>> {
    if m.contains_key(k) {
        Some(m[k])
    } else {
        None
    }
}

fn get_owned(map: &PropertyMap, key: &str) -> (r: Option<String>)
    ensures
        opt_view(r) == lookup(map.view(), key@),
{
    match map.get(key) {
        Some(v) => Some(clone_string(v)),
        None => None,
    }
}

pub fn os_info_from_map(map: &PropertyMap) -> (os: OsInfo)
    ensures
        opt_view(os.id) == lookup(map.view(), "ID"@),
        opt_view(os.name) == lookup(map.view(), "NAME"@),
        opt_view(os.pretty_name) == lookup(map.view(), "PRETTY_NAME"@),
        opt_view(os.version_id) == lookup(map.view(), "VERSION_ID"@),
        opt_view(os.version_codename) == lookup(map.view(), "VERSION_CODENAME"@),
        opt_view(os.build_id) == lookup(map.view(), "BUILD_ID"@),
        opt_view(os.home_url) == lookup(map.view(), "HOME_URL"@),
{
    OsInfo {
        id: get_owned(map, "ID"),
        name: get_owned(map, "NAME"),
        pretty_name: get_owned(map, "PRETTY_NAME"),
        version_id: get_owned(map, "VERSION_ID"),
        version_codename: get_owned(map, "VERSION_CODENAME"),
        build_id: get_owned(map, "BUILD_ID"),
        home_url: get_owned(map, "HOME_URL"),
    }
}

#[derive(Debug, Clone)]
pub struct KernelInfo {
    pub release: String,
    pub version: String,
    pub arch: String,
}

#[derive(Debug, Clone, Copy)]
pub struct MemoryInfo {
    pub total_kb: u64,
    pub available_kb: u64,
}

/// The number on a meminfo line: the first word of the value, 0 when it
/// is missing or not a number.
pub open spec fn meminfo_number(v: Seq<char>) -> u64 {
    let w = words(v);
    if w.len() > 0 && parse_u64(w[0]) is Some {
        parse_u64(w[0])->0
    } else {
        0
    }
}

/// `(MemTotal, MemAvailable)` after the first lines (a later line wins).
pub open spec fn meminfo_fold(ls: Seq<Seq<char>>) -> (u64, u64)
    decreases ls.len(),
{
    if ls.len() == 0 {
        (0, 0)
    } else {
        let (t, a) = meminfo_fold(ls.drop_last());
        match split_once(ls.last(), ':') {
            Some((k, v)) => if trim(k) == "MemTotal"@ {
                (meminfo_number(v), a)
            } else if trim(k) == "MemAvailable"@ {
                (t, meminfo_number(v))
            } else {
                (t, a)
            },
            None => (t, a),
        }
    }
}

fn meminfo_number_of(v: &[char]) -> (n: u64)
    ensures
        n == meminfo_number(v@),
{
    assert(v@.skip(0) =~= v@);
    match next_word(v, 0) {
        Some((a, b)) => match parse_u64_range(v, a, b) {
            Some(n) => n,
            None => 0,
        },
        None => 0,
    }
}

/// Parser of /proc/meminfo (kB values).
pub fn parse_meminfo_kb(content: &str) -> (m: MemoryInfo)
    ensures
        (m.total_kb, m.available_kb) == meminfo_fold(lines(content@)),
{
    let text = chars_of(content);
    let ls = lines_of(text.as_slice());
    let ghost all = lines(content@);
    let total_key = chars_of("MemTotal");
    let avail_key = chars_of("MemAvailable");
    let mut total: u64 = 0;
    let mut avail: u64 = 0;
    let mut i: usize = 0;
    assert(all.take(0) =~= Seq::<Seq<char>>::empty());
    while i < ls.len()
        invariant
            i <= ls.len() == all.len(),
            all == lines(content@),
            total_key@ == "MemTotal"@,
            avail_key@ == "MemAvailable"@,
            forall|k: int| 0 <= k < ls@.len() ==> #[trigger] ls@[k]@ == all[k],
            (total, avail) == meminfo_fold(all.take(i as int)),
        decreases ls.len() - i,
    {
        proof {
            assert(all.take(i + 1).drop_last() =~= all.take(i as int));
        }
        match split_once_of(ls[i].as_slice(), ':') {
            Some((k, v)) => {
                let kt = trim_chars(k.as_slice());
                if crate::text::chars_eq(kt.as_slice(), total_key.as_slice()) {
                    total = meminfo_number_of(v.as_slice());
                } else if crate::text::chars_eq(kt.as_slice(), avail_key.as_slice()) {
                    avail = meminfo_number_of(v.as_slice());
                }
            },
            None => {},
        }
        i += 1;
    }
    proof {
        assert(all.take(ls.len() as int) =~= all);
    }
    MemoryInfo { total_kb: total, available_kb: avail }
}

/// `(processor lines, first model name)` over the first lines.
pub open spec fn cpuinfo_fold(ls: Seq<Seq<char>>) -> (nat, Option<Seq<char>>)
    decreases ls.len(),
{
    if ls.len() == 0 {
        (0, None)
    } else {
        let (n, model) = cpuinfo_fold(ls.drop_last());
        let l = ls.last();
        if starts_with(l, "processor"@) {
            (n + 1, model)
        } else if starts_with(l, "model name"@) && model is None {
            match split_once(l, ':') {
                Some((_, v)) => (n, Some(trim(v))),
                None => (n, model),
            }
        } else {
            (n, model)
        }
    }
}

/// (logical cores, model name) from /proc/cpuinfo (x86_64). With no
/// `processor` line the count is the machine's parallelism (`parallelism`,
/// when the platform reports it).
pub fn parse_cpuinfo(content: &str, parallelism: Option<usize>) -> (r: (usize, Option<String>))
    ensures
        cpuinfo_fold(lines(content@)).0 > 0 ==> r.0 == cpuinfo_fold(lines(content@)).0,
        cpuinfo_fold(lines(content@)).0 == 0 ==> r.0 == match parallelism {
            Some(n) => n,
            None => 0,
        },
        opt_view(r.1) == cpuinfo_fold(lines(content@)).1,
{
    let text = chars_of(content);
    let ls = lines_of(text.as_slice());
    let ghost all = lines(content@);
    let p_proc = chars_of("processor");
    let p_model = chars_of("model name");
    let mut cpus: usize = 0;
    let mut model: Option<String> = None;
    let mut i: usize = 0;
    assert(all.take(0) =~= Seq::<Seq<char>>::empty());
    while i < ls.len()
        invariant
            i <= ls.len() == all.len(),
            all == lines(content@),
            p_proc@ == "processor"@,
            p_model@ == "model name"@,
            forall|k: int| 0 <= k < ls@.len() ==> #[trigger] ls@[k]@ == all[k],
            cpus as nat == cpuinfo_fold(all.take(i as int)).0,
            cpus <= i,
            opt_view(model) == cpuinfo_fold(all.take(i as int)).1,
        decreases ls.len() - i,
    {
        proof {
            assert(all.take(i + 1).drop_last() =~= all.take(i as int));
        }
        let line = ls[i].as_slice();
        if starts_with_chars(line, p_proc.as_slice()) {
            cpus += 1;
        } else if starts_with_chars(line, p_model.as_slice()) && model.is_none() {
            match split_once_of(line, ':') {
                Some((_, v)) => {
                    model = Some(trim_string(v.as_slice()));
                },
                None => {},
            }
        }
        i += 1;
    }
    proof {
        assert(all.take(ls.len() as int) =~= all);
    }
    if cpus == 0 {
        match parallelism {
            Some(n) => {
                cpus = n;
            },
            None => {},
        }
    }
    (cpus, model)
}

#[derive(Debug, Clone)]
pub struct Battery {
    pub name: String,
    pub capacity_pct: Option<u8>,
    pub status: Option<String>,
}

#[derive(Debug, Clone)]
pub struct PowerInfo {
    pub batteries: Vec<Battery>,
    pub ac_online: Option<bool>,
}

#[derive(Debug, Clone, Copy)]
pub struct SecureBootInfo {
    /// The machine boots in UEFI mode (the SecureBoot efivar exists).
    pub efi_supported: bool,
    /// The SecureBoot efivar could be read.
    pub value_readable: bool,
    /// None = unknown (no permission to read the efivar).
    pub enabled: Option<bool>,
}

/// Secure Boot from the efivarfs. Files there start with 4 bytes of
/// attributes; the value (one byte: 0 = off, 1 = on) is at offset 4.
/// `efi_supported` says whether the variable exists, `bytes` what reading
/// it gave (`None` when it could not be read).
pub fn read_secure_boot(efi_supported: bool, bytes: Option<Vec<u8>>) -> (info: SecureBootInfo)
    ensures
        info.efi_supported == efi_supported,
        !efi_supported ==> !info.value_readable && info.enabled is None,
        efi_supported ==> match bytes {
            Some(b) => if b@.len() >= 5 {
                info.value_readable && info.enabled == Some(b@[4] != 0)
            } else {
                !info.value_readable && info.enabled is None
            },
            None => !info.value_readable && info.enabled is None,
        },
{
    let unknown = SecureBootInfo { efi_supported, value_readable: false, enabled: None };
    if !efi_supported {
        return unknown;
    }
    match bytes {
        Some(b) => {
            if b.len() >= 5 {
                SecureBootInfo { efi_supported: true, value_readable: true, enabled: Some(b[4] != 0) }
            } else {
                unknown
            }
        },
        None => unknown,
    }
}

/// The AC state from the `online` file of a mains supply.
pub fn ac_online_from(online: &str) -> (r: Option<bool>)
    ensures
        online@ == "1"@ ==> r == Some(true),
        online@ == "0"@ ==> r == Some(false),
        online@ != "1"@ && online@ != "0"@ ==> r is None,
{
    proof {
        reveal_strlit("1");
        reveal_strlit("0");
        assert("1"@[0] != "0"@[0]);
    }
    if crate::text::str_eq(online, "1") {
        Some(true)
    } else if crate::text::str_eq(online, "0") {
        Some(false)
    } else {
        None
    }
}

/// What one entry of `/sys/class/power_supply` holds: its name and the
/// contents of its `type`, `capacity`, `status` and `online` files (`None`
/// when a file could not be read).
#[derive(Debug, Clone)]
pub struct SupplyFiles {
    pub name: String,
    pub kind: Option<String>,
    pub capacity: Option<String>,
    pub status: Option<String>,
    pub online: Option<String>,
}

/// A file's contents, trimmed.
pub open spec fn trimmed_file(o: Option<String>) -> Option<Seq<char>> {
    match o {
        Some(t) => Some(trim(t@)),
        None => None,
    }
}

/// `str::parse::<u8>()`.
pub open spec fn parse_u8(s: Seq<char>) -> Option<u8> {
    match parse_u64(s) {
        Some(v) => if v <= 255 {
            Some(v as u8)
        } else {
            None
        },
        None => None,
    }
}

/// A battery in plain values: name, charge, status.
pub type BatteryV = (Seq<char>, Option<u8>, Option<Seq<char>>);

/// The batteries among the supplies, in order: those whose trimmed type
/// is `Battery`, with the trimmed capacity read as a percentage and the
/// trimmed status.
pub open spec fn batteries_of(ss: Seq<SupplyFiles>) -> Seq<BatteryV>
    decreases ss.len(),
{
    if ss.len() == 0 {
        seq![]
    } else {
        let rest = batteries_of(ss.drop_last());
        let x = ss.last();
        if trimmed_file(x.kind) == Some("Battery"@) {
            rest.push((
                x.name@,
                match trimmed_file(x.capacity) {
                    Some(c) => parse_u8(c),
                    None => None,
                },
                trimmed_file(x.status),
            ))
        } else {
            rest
        }
    }
}

/// The `online` text of a mains supply read as a state.
pub open spec fn online_state(t: Seq<char>) -> Option<bool> {
    if t == "1"@ {
        Some(true)
    } else if t == "0"@ {
        Some(false)
    } else {
        None
    }
}

/// The AC state: what the last mains supply's trimmed `online` file says
/// (an unreadable one reads as empty); unknown without a mains supply.
pub open spec fn ac_of(ss: Seq<SupplyFiles>) -> Option<bool>
    decreases ss.len(),
{
    if ss.len() == 0 {
        None
    } else {
        let x = ss.last();
        if trimmed_file(x.kind) == Some("Mains"@) {
            online_state(match trimmed_file(x.online) {
                Some(t) => t,
                None => Seq::empty(),
            })
        } else {
            ac_of(ss.drop_last())
        }
    }
}

fn trimmed_of(o: &Option<String>) -> (r: Option<String>)
    ensures
        opt_view(r) == trimmed_file(*o),
{
    match o {
        Some(t) => {
            let v = chars_of(t.as_str());
            Some(trim_string(v.as_slice()))
        },
        None => None,
    }
}

fn parse_u8_of(s: &str) -> (r: Option<u8>)
    ensures
        r == parse_u8(s@),
{
    let v = chars_of(s);
    match parse_u64_range(v.as_slice(), 0, v.len()) {
        Some(n) => {
            proof {
                assert(v@.subrange(0, v.len() as int) =~= s@);
            }
            if n <= 255 {
                Some(n as u8)
            } else {
                None
            }
        },
        None => {
            proof {
                assert(v@.subrange(0, v.len() as int) =~= s@);
            }
            None
        },
    }
}

/// The power picture from the supplies: the batteries in order, and the
/// AC state from the last mains supply.
pub fn power_from(supplies: &Vec<SupplyFiles>) -> (p: PowerInfo)
    ensures
        p.batteries@.map_values(|b: Battery| (b.name@, b.capacity_pct, opt_view(b.status))) == batteries_of(
            supplies@,
        ),
        p.ac_online == ac_of(supplies@),
{
    proof {
        reveal_strlit("Battery");
        reveal_strlit("Mains");
        reveal_strlit("1");
        reveal_strlit("0");
    }
    let mut batteries: Vec<Battery> = Vec::new();
    let mut ac: Option<bool> = None;
    let mut i: usize = 0;
    while i < supplies.len()
        invariant
            i <= supplies.len(),
            batteries@.map_values(|b: Battery| (b.name@, b.capacity_pct, opt_view(b.status))) == batteries_of(
                supplies@.take(i as int),
            ),
            ac == ac_of(supplies@.take(i as int)),
        decreases supplies.len() - i,
    {
        let ghost t = supplies@.take(i + 1);
        proof {
            assert(t.drop_last() =~= supplies@.take(i as int));
            assert(t.last() == supplies@[i as int]);
        }
        let x = &supplies[i];
        let kind = trimmed_of(&x.kind);
        let is_battery = match &kind {
            Some(k) => crate::text::str_eq(k.as_str(), "Battery"),
            None => false,
        };
        let is_mains = match &kind {
            Some(k) => crate::text::str_eq(k.as_str(), "Mains"),
            None => false,
        };
        if is_battery {
            let cap = match trimmed_of(&x.capacity) {
                Some(c) => parse_u8_of(c.as_str()),
                None => None,
            };
            let b = Battery { name: clone_string(&x.name), capacity_pct: cap, status: trimmed_of(&x.status) };
            let ghost before = batteries@;
            batteries.push(b);
            proof {
                assert(batteries@.map_values(|b: Battery| (b.name@, b.capacity_pct, opt_view(b.status))) =~= before.map_values(
                    |b: Battery| (b.name@, b.capacity_pct, opt_view(b.status)),
                ).push((b.name@, b.capacity_pct, opt_view(b.status))));
            }
        } else if is_mains {
            let online = match trimmed_of(&x.online) {
                Some(o) => o,
                None => String::new(),
            };
            ac = ac_online_from(online.as_str());
        }
        proof {
            reveal_strlit("Battery");
            reveal_strlit("Mains");
            if is_battery {
                assert("Battery"@[0] != "Mains"@[0]);
            }
        }
        i += 1;
    }
    proof {
        assert(supplies@.take(supplies.len() as int) =~= supplies@);
    }
    PowerInfo { batteries, ac_online: ac }
}

} // verus!
