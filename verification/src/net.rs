//! Networks, read through nmcli (NetworkManager) in its terse form, which
//! is stable and free of locale. Nothing here changes any configuration.

use vstd::prelude::*;

use crate::error::SysforgeError;
use crate::executor::{arg_views, CommandSpec, ExecResult};
use crate::order::{lemma_sort_order, sort_order, sorted_desc, stable_order_desc};
use crate::text::{
    chars_eq, chars_of, clone_string, lines, lines_of, parse_u64, parse_u64_range, split_char, split_char_of,
    string_from,
};

verus! {

#[derive(Debug, Clone)]
pub struct NetDevice {
    pub name: String,
    pub kind: String,
    pub state: String,
    pub connection: String,
}

#[derive(Debug, Clone)]
pub struct WifiNetwork {
    pub ssid: String,
    pub signal: u32,
    pub security: String,
    pub active: bool,
}

#[derive(Debug, Clone)]
pub struct NetInfo {
    pub nmcli_present: bool,
    pub devices: Vec<NetDevice>,
    /// Visible Wi-Fi networks (empty without an active radio).
    pub wifi: Vec<WifiNetwork>,
}

/// Abstract device: name, type, state, connection.
pub type DeviceV = (Seq<char>, Seq<char>, Seq<char>, Seq<char>);

/// Abstract Wi-Fi network: ssid, signal, security, active.
pub type WifiV = (Seq<char>, u32, Seq<char>, bool);

pub open spec fn device_view(d: NetDevice) -> DeviceV {
    (d.name@, d.kind@, d.state@, d.connection@)
}

pub open spec fn wifi_view(w: WifiNetwork) -> WifiV {
    (w.ssid@, w.signal, w.security@, w.active)
}

/// `str::parse::<u32>()`.
pub open spec fn parse_u32(s: Seq<char>) -> Option<u32> {
    match parse_u64(s) {
        Some(v) => if v <= u32::MAX {
            Some(v as u32)
        } else {
            None
        },
        None => None,
    }
}

/// The devices of `DEVICE:TYPE:STATE:CONNECTION` lines: lines with at
/// least four fields and a non-empty name.
pub open spec fn parsed_devices(ls: Seq<Seq<char>>) -> Seq<DeviceV>
    decreases ls.len(),
{
    if ls.len() == 0 {
        seq![]
    } else {
        let rest = parsed_devices(ls.drop_last());
        let p = split_char(ls.last(), ':');
        if p.len() >= 4 && p[0].len() > 0 {
            rest.push((p[0], p[1], p[2], p[3]))
        } else {
            rest
        }
    }
}

/// The networks of `ACTIVE:SSID:SIGNAL:SECURITY` lines: lines with at
/// least four fields and a non-empty SSID; "sim" or "yes" is active, an
/// unreadable signal is 0.
pub open spec fn parsed_wifi(ls: Seq<Seq<char>>) -> Seq<WifiV>
    decreases ls.len(),
{
    if ls.len() == 0 {
        seq![]
    } else {
        let rest = parsed_wifi(ls.drop_last());
        let p = split_char(ls.last(), ':');
        if p.len() >= 4 && p[1].len() > 0 {
            rest.push((
                p[1],
                match parse_u32(p[2]) {
                    Some(v) => v,
                    None => 0,
                },
                p[3],
                p[0] == "sim"@ || p[0] == "yes"@,
            ))
        } else {
            rest
        }
    }
}

/// The signals of a list of networks.
pub open spec fn signals(w: Seq<WifiV>) -> Seq<u64> {
    w.map_values(|n: WifiV| n.1 as u64)
}

/// The networks strongest first (ties keep the listing order).
pub open spec fn wifi_by_signal(w: Seq<WifiV>) -> Seq<WifiV> {
    sort_order(signals(w), w.len()).map_values(|k: int| w[k])
}

/// Devices of `nmcli -t -f DEVICE,TYPE,STATE,CONNECTION device status`.
pub fn parse_devices(out: &str) -> (r: Vec<NetDevice>)
    ensures
        r@.map_values(|d: NetDevice| device_view(d)) == parsed_devices(lines(out@)),
{
    let s = chars_of(out);
    let ls = lines_of(s.as_slice());
    let ghost lv = lines(out@);
    let mut r: Vec<NetDevice> = Vec::new();
    let mut i: usize = 0;
    while i < ls.len()
        invariant
            i <= ls.len(),
            ls@.len() == lv.len(),
            lv == lines(out@),
            forall|k: int| 0 <= k < ls@.len() ==> #[trigger] ls@[k]@ == lv[k],
            r@.map_values(|d: NetDevice| device_view(d)) == parsed_devices(lv.take(i as int)),
        decreases ls.len() - i,
    {
        proof {
            assert(lv.take(i + 1).drop_last() =~= lv.take(i as int));
            assert(lv.take(i + 1).last() == ls@[i as int]@);
        }
        let p = split_char_of(ls[i].as_slice(), ':');
        if p.len() >= 4 && p[0].len() > 0 {
            r.push(NetDevice {
                name: string_from(p[0].as_slice()),
                kind: string_from(p[1].as_slice()),
                state: string_from(p[2].as_slice()),
                connection: string_from(p[3].as_slice()),
            });
        }
        proof {
            assert(r@.map_values(|d: NetDevice| device_view(d)) =~= parsed_devices(lv.take(i + 1)));
        }
        i += 1;
    }
    proof {
        assert(lv.take(ls.len() as int) =~= lv);
    }
    r
}

fn parse_u32_of(s: &[char]) -> (r: Option<u32>)
    ensures
        r == parse_u32(s@),
{
    let v = parse_u64_range(s, 0, s.len());
    proof {
        assert(s@.subrange(0, s.len() as int) =~= s@);
    }
    match v {
        Some(x) => if x <= 4294967295u64 {
            Some(x as u32)
        } else {
            None
        },
        None => None,
    }
}

/// Networks of `nmcli -t -f ACTIVE,SSID,SIGNAL,SECURITY device wifi list`,
/// strongest signal first.
pub fn parse_wifi(out: &str) -> (r: Vec<WifiNetwork>)
    ensures
        r@.map_values(|w: WifiNetwork| wifi_view(w)) == wifi_by_signal(parsed_wifi(lines(out@))),
        forall|a: int, b: int| 0 <= a < b < r@.len() ==> (#[trigger] r@[a]).signal >= (#[trigger] r@[b]).signal,
{
    let s = chars_of(out);
    let ls = lines_of(s.as_slice());
    let ghost lv = lines(out@);
    let sim = chars_of("sim");
    let yes = chars_of("yes");
    let mut w: Vec<WifiNetwork> = Vec::new();
    let mut i: usize = 0;
    while i < ls.len()
        invariant
            i <= ls.len(),
            ls@.len() == lv.len(),
            lv == lines(out@),
            sim@ == "sim"@,
            yes@ == "yes"@,
            forall|k: int| 0 <= k < ls@.len() ==> #[trigger] ls@[k]@ == lv[k],
            w@.map_values(|n: WifiNetwork| wifi_view(n)) == parsed_wifi(lv.take(i as int)),
        decreases ls.len() - i,
    {
        proof {
            assert(lv.take(i + 1).drop_last() =~= lv.take(i as int));
            assert(lv.take(i + 1).last() == ls@[i as int]@);
        }
        let p = split_char_of(ls[i].as_slice(), ':');
        if p.len() >= 4 && p[1].len() > 0 {
            let active = chars_eq(p[0].as_slice(), sim.as_slice()) || chars_eq(p[0].as_slice(), yes.as_slice());
            let signal = match parse_u32_of(p[2].as_slice()) {
                Some(v) => v,
                None => 0,
            };
            w.push(WifiNetwork {
                ssid: string_from(p[1].as_slice()),
                signal,
                security: string_from(p[3].as_slice()),
                active,
            });
        }
        proof {
            assert(w@.map_values(|n: WifiNetwork| wifi_view(n)) =~= parsed_wifi(lv.take(i + 1)));
        }
        i += 1;
    }
    proof {
        assert(lv.take(ls.len() as int) =~= lv);
    }
    let ghost wv = w@.map_values(|n: WifiNetwork| wifi_view(n));
    let mut keys: Vec<u64> = Vec::new();
    let mut j: usize = 0;
    while j < w.len()
        invariant
            j <= w.len(),
            wv == w@.map_values(|n: WifiNetwork| wifi_view(n)),
            keys@ == signals(wv).take(j as int),
        decreases w.len() - j,
    {
        keys.push(w[j].signal as u64);
        proof {
            assert(keys@ =~= signals(wv).take(j + 1));
        }
        j += 1;
    }
    proof {
        assert(keys@ =~= signals(wv));
    }
    let order = stable_order_desc(&keys);
    let ghost ord = order@.map_values(|x: usize| x as int);
    proof {
        lemma_sort_order(signals(wv), wv.len());
        assert forall|a: int| 0 <= a < ord.len() implies 0 <= #[trigger] ord[a] < wv.len() by {
            broadcast use vstd::seq_lib::group_to_multiset_ensures;
            assert(ord.contains(ord[a]));
            assert(Seq::new(wv.len(), |x: int| x).to_multiset().count(ord[a]) > 0);
            assert(Seq::new(wv.len(), |x: int| x).contains(ord[a]));
        }
    }
    let mut r: Vec<WifiNetwork> = Vec::new();
    let mut m: usize = 0;
    while m < order.len()
        invariant
            m <= order.len(),
            ord == order@.map_values(|x: usize| x as int),
            ord.len() == wv.len(),
            wv == w@.map_values(|n: WifiNetwork| wifi_view(n)),
            forall|a: int| 0 <= a < ord.len() ==> 0 <= #[trigger] ord[a] < wv.len(),
            r@.map_values(|n: WifiNetwork| wifi_view(n)) == ord.take(m as int).map_values(|k: int| wv[k]),
        decreases order.len() - m,
    {
        proof {
            assert(ord[m as int] == order@[m as int] as int);
            assert(wv[ord[m as int]] == wifi_view(w@[order@[m as int] as int]));
        }
        let x = &w[order[m]];
        let y = WifiNetwork { ssid: clone_string(&x.ssid), signal: x.signal, security: clone_string(&x.security), active: x.active };
        let ghost before = r@.map_values(|n: WifiNetwork| wifi_view(n));
        proof {
            assert(wifi_view(y) == wv[ord[m as int]]);
            assert(ord.take(m + 1).map_values(|k: int| wv[k]) =~= ord.take(m as int).map_values(|k: int| wv[k]).push(wv[ord[m as int]]));
        }
        r.push(y);
        proof {
            assert(r@.map_values(|n: WifiNetwork| wifi_view(n)) =~= before.push(wifi_view(y)));
            assert(r@.map_values(|n: WifiNetwork| wifi_view(n)) =~= ord.take(m + 1).map_values(|k: int| wv[k]));
        }
        m += 1;
    }
    proof {
        assert(ord.take(order.len() as int) =~= ord);
        let rv = r@.map_values(|n: WifiNetwork| wifi_view(n));
        assert forall|a: int, b: int| 0 <= a < b < r@.len() implies (#[trigger] r@[a]).signal >= (#[trigger] r@[b]).signal by {
            assert(rv[a] == wv[ord[a]]);
            assert(rv[b] == wv[ord[b]]);
            assert(signals(wv)[ord[a]] >= signals(wv)[ord[b]]);
            assert(rv[a].1 == r@[a].signal);
            assert(rv[b].1 == r@[b].signal);
        }
    }
    r
}

/// `nmcli -t -f DEVICE,TYPE,STATE,CONNECTION device status`.
pub fn devices_spec() -> (spec: CommandSpec)
    ensures
        spec.program@ == "nmcli"@,
        arg_views(spec.args@) == seq!["-t"@, "-f"@, "DEVICE,TYPE,STATE,CONNECTION"@, "device"@, "status"@],
        spec.timeout_secs == 15,
{
    let spec = CommandSpec::new("nmcli").timeout(15).arg("-t").arg("-f").arg("DEVICE,TYPE,STATE,CONNECTION").arg(
        "device",
    ).arg("status");
    assert(arg_views(spec.args@) =~= seq!["-t"@, "-f"@, "DEVICE,TYPE,STATE,CONNECTION"@, "device"@, "status"@]);
    spec
}

/// `nmcli -t -f ACTIVE,SSID,SIGNAL,SECURITY device wifi list`.
pub fn wifi_spec() -> (spec: CommandSpec)
    ensures
        spec.program@ == "nmcli"@,
        arg_views(spec.args@) == seq!["-t"@, "-f"@, "ACTIVE,SSID,SIGNAL,SECURITY"@, "device"@, "wifi"@, "list"@],
        spec.timeout_secs == 15,
{
    let spec = CommandSpec::new("nmcli").timeout(15).arg("-t").arg("-f").arg("ACTIVE,SSID,SIGNAL,SECURITY").arg(
        "device",
    ).arg("wifi").arg("list");
    assert(arg_views(spec.args@) =~= seq!["-t"@, "-f"@, "ACTIVE,SSID,SIGNAL,SECURITY"@, "device"@, "wifi"@, "list"@]);
    spec
}

/// The stdout of an nmcli run, or the failure with its arguments.
pub fn nmcli_output(spec: &CommandSpec, r: &ExecResult) -> (out: Result<String, SysforgeError>)
    ensures
        r.exit_code == Some(0i32) ==> (out matches Ok(s) && s@ == r.stdout@),
        r.exit_code != Some(0i32) ==> (out matches Err(e) && e.code@ == crate::error::error_code(
            crate::error::ErrorDomain::Io,
            1,
        ) && e.technical@ == "`"@ + "nmcli"@ + " "@ + crate::error::joined_args(arg_views(spec.args@))
            + "` terminou com status "@ + crate::error::exit_debug(r.exit_code) + ". stderr: "@ + crate::text::trim(
            r.stderr@,
        )),
{
    if !r.success() {
        let e = SysforgeError::command_failed("nmcli", spec.args.as_slice(), r.exit_code, r.stderr.as_str());
        proof {
            assert(spec.args@.map_values(|a: String| a@) =~= arg_views(spec.args@));
        }
        return Err(e);
    }
    Ok(clone_string(&r.stdout))
}

/// The network report: `nmcli_present` says whether nmcli is on the
/// PATH; `devices` is the device listing (its failure fails the report);
/// `wifi` the Wi-Fi listing (its failure leaves the list empty).
pub fn info(
    nmcli_present: bool,
    devices: Result<String, SysforgeError>,
    wifi: Result<String, SysforgeError>,
) -> (r: Result<NetInfo, SysforgeError>)
    ensures
        !nmcli_present ==> (r matches Ok(n) && !n.nmcli_present && n.devices@.len() == 0 && n.wifi@.len() == 0),
        nmcli_present ==> match devices {
            Err(e) => r == Err::<NetInfo, SysforgeError>(e),
            Ok(d) => r matches Ok(n) && n.nmcli_present
                && n.devices@.map_values(|x: NetDevice| device_view(x)) == parsed_devices(lines(d@))
                && n.wifi@.map_values(|x: WifiNetwork| wifi_view(x)) == match wifi {
                    Ok(w) => wifi_by_signal(parsed_wifi(lines(w@))),
                    Err(_) => Seq::empty(),
                },
        },
{
    if !nmcli_present {
        return Ok(NetInfo { nmcli_present: false, devices: Vec::new(), wifi: Vec::new() });
    }
    let out = match devices {
        Ok(d) => d,
        Err(e) => {
            return Err(e);
        },
    };
    let devs = parse_devices(out.as_str());
    let w = match wifi {
        Ok(text) => parse_wifi(text.as_str()),
        Err(_) => {
            let v: Vec<WifiNetwork> = Vec::new();
            proof {
                assert(v@.map_values(|x: WifiNetwork| wifi_view(x)) =~= Seq::<WifiV>::empty());
            }
            v
        },
    };
    Ok(NetInfo { nmcli_present: true, devices: devs, wifi: w })
}

/// The Wi-Fi list comes strongest first, and is the listing reordered:
/// entry `a` is the network at position `order[a]` of the listing, where
/// `order` holds each position once.
pub proof fn law_wifi_strongest_first(w: Seq<WifiV>)
    ensures
        wifi_by_signal(w).len() == w.len(),
        forall|a: int, b: int| 0 <= a < b < w.len() ==> (#[trigger] wifi_by_signal(w)[a]).1
            >= (#[trigger] wifi_by_signal(w)[b]).1,
        sort_order(signals(w), w.len()).to_multiset() == Seq::new(w.len(), |i: int| i).to_multiset(),
        forall|a: int| 0 <= a < w.len() ==> #[trigger] wifi_by_signal(w)[a] == w[sort_order(signals(w), w.len())[a]],
{
    broadcast use vstd::multiset::group_multiset_axioms, vstd::seq_lib::group_to_multiset_ensures;
    let keys = signals(w);
    let o = sort_order(keys, w.len());
    lemma_sort_order(keys, w.len());
    assert forall|a: int| 0 <= a < w.len() implies 0 <= #[trigger] o[a] < w.len() by {
        assert(o.to_multiset().count(o[a]) > 0);
        assert(Seq::new(w.len(), |i: int| i).to_multiset().count(o[a]) > 0);
        assert(Seq::new(w.len(), |i: int| i).contains(o[a]));
    }
    assert forall|a: int, b: int| 0 <= a < b < w.len() implies (#[trigger] wifi_by_signal(w)[a]).1
        >= (#[trigger] wifi_by_signal(w)[b]).1 by {
        assert(keys[o[a]] >= keys[o[b]]);
    }
}

/// Some line of `ls` has at least four `:` fields, a non-empty name, and
/// is the device `d`.
pub open spec fn device_line_in(ls: Seq<Seq<char>>, d: DeviceV) -> bool {
    exists|i: int| {
        &&& 0 <= i < ls.len()
        &&& (#[trigger] split_char(ls[i], ':')).len() >= 4
        &&& split_char(ls[i], ':')[0].len() > 0
        &&& d == (split_char(ls[i], ':')[0], split_char(ls[i], ':')[1], split_char(ls[i], ':')[2],
            split_char(ls[i], ':')[3])
    }
}

/// Some line of `ls` has at least four `:` fields and a non-empty SSID,
/// which with the security field is that of `w`.
pub open spec fn wifi_line_in(ls: Seq<Seq<char>>, w: WifiV) -> bool {
    exists|i: int| {
        &&& 0 <= i < ls.len()
        &&& (#[trigger] split_char(ls[i], ':')).len() >= 4
        &&& split_char(ls[i], ':')[1].len() > 0
        &&& w.0 == split_char(ls[i], ':')[1]
        &&& w.2 == split_char(ls[i], ':')[3]
    }
}

/// Every device listed comes from a line with at least four `:` fields
/// and a non-empty name, and is those fields.
pub proof fn law_devices_come_from_full_lines(ls: Seq<Seq<char>>)
    ensures
        forall|k: int| 0 <= k < parsed_devices(ls).len() ==> device_line_in(ls, #[trigger] parsed_devices(ls)[k]),
    decreases ls.len(),
{
    if ls.len() > 0 {
        let prev = ls.drop_last();
        law_devices_come_from_full_lines(prev);
        let n = parsed_devices(prev).len();
        assert forall|k: int| 0 <= k < parsed_devices(ls).len() implies device_line_in(
            ls,
            #[trigger] parsed_devices(ls)[k],
        ) by {
            if k < n {
                let d = parsed_devices(prev)[k];
                assert(device_line_in(prev, d));
                let i = choose|i: int| {
                    &&& 0 <= i < prev.len()
                    &&& (#[trigger] split_char(prev[i], ':')).len() >= 4
                    &&& split_char(prev[i], ':')[0].len() > 0
                    &&& d == (split_char(prev[i], ':')[0], split_char(prev[i], ':')[1], split_char(prev[i], ':')[2],
                        split_char(prev[i], ':')[3])
                };
                assert(prev[i] == ls[i]);
            } else {
                assert(ls[ls.len() - 1] == ls.last());
            }
        }
    }
}

/// Every network listed comes from a line with at least four `:` fields
/// and a non-empty SSID, which is its SSID.
pub proof fn law_wifi_come_from_full_lines(ls: Seq<Seq<char>>)
    ensures
        forall|k: int| 0 <= k < parsed_wifi(ls).len() ==> wifi_line_in(ls, #[trigger] parsed_wifi(ls)[k]),
    decreases ls.len(),
{
    if ls.len() > 0 {
        let prev = ls.drop_last();
        law_wifi_come_from_full_lines(prev);
        let n = parsed_wifi(prev).len();
        assert forall|k: int| 0 <= k < parsed_wifi(ls).len() implies wifi_line_in(
            ls,
            #[trigger] parsed_wifi(ls)[k],
        ) by {
            if k < n {
                let w = parsed_wifi(prev)[k];
                assert(wifi_line_in(prev, w));
                let i = choose|i: int| {
                    &&& 0 <= i < prev.len()
                    &&& (#[trigger] split_char(prev[i], ':')).len() >= 4
                    &&& split_char(prev[i], ':')[1].len() > 0
                    &&& w.0 == split_char(prev[i], ':')[1]
                    &&& w.2 == split_char(prev[i], ':')[3]
                };
                assert(prev[i] == ls[i]);
            } else {
                assert(ls[ls.len() - 1] == ls.last());
            }
        }
    }
}

} // verus!
