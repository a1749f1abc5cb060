//! Disk health through smartctl, with radical honesty: smartctl missing or
//! no root means "unavailable", with its code and why. Health values are
//! never made up: without real data the report says so.

use vstd::prelude::*;

use crate::executor::{arg_views, CommandSpec, ExecResult};
use crate::text::{chars_of, clone_string, fold_contains, fold_contains_str, opt_view, trim, trim_bounds};
use crate::Availability;

verus! {

/// One row of the ATA SMART attribute table, as read from the JSON.
#[derive(Debug, Clone)]
pub struct SmartAttribute {
    /// `id` of the row, when a non-negative integer.
    pub id: Option<u64>,
    /// `raw.value` of the row, when a non-negative integer.
    pub raw_value: Option<u64>,
}

/// What the health report reads from the smartctl JSON.
#[derive(Debug, Clone)]
pub struct SmartData {
    /// `/smart_status/passed`.
    pub passed: Option<bool>,
    /// `/temperature/current`, when an integer.
    pub temperature: Option<i64>,
    /// `/power_on_time/hours`.
    pub power_on_hours: Option<u64>,
    /// `/ata_smart_attributes/table`, when it is an array.
    pub attributes: Option<Vec<SmartAttribute>>,
}

/// What [`SmartData`] says, as plain values.
pub struct SmartDataV {
    pub passed: Option<bool>,
    pub temperature: Option<i64>,
    pub power_on_hours: Option<u64>,
    pub attributes: Option<Seq<SmartAttribute>>,
}

impl View for SmartData {
    type V = SmartDataV;

    open spec fn view(&self) -> SmartDataV {
        SmartDataV {
            passed: self.passed,
            temperature: self.temperature,
            power_on_hours: self.power_on_hours,
            attributes: match self.attributes {
                Some(t) => Some(t@),
                None => None,
            },
        }
    }
}

/// What reading a smartctl JSON text gives: the fields of [`SmartData`],
/// or the JSON parser's message.
pub uninterp spec fn smart_json(text: Seq<char>) -> Result<SmartDataV, Seq<char>>;

/// `serde_json::from_str::<Value>` on smartctl's output, then the values
/// at `/smart_status/passed` (`as_bool`), `/temperature/current`
/// (`as_i64`), `/power_on_time/hours` (`as_u64`) and, for each row of the
/// array `/ata_smart_attributes/table`, `id` and `/raw/value` (`as_u64`).
/// The contract names that result; it also says that a text with nothing
/// but blanks never parses (the parser stops at the end of its input).
#[verifier::external_body]
fn parse_smart_json(text: &str) -> (r: Result<SmartData, String>)
    ensures
        match smart_json(text@) {
            Ok(v) => r matches Ok(d) && d@ == v,
            Err(m) => r matches Err(e) && e@ == m,
        },
        trim(text@).len() == 0 ==> r is Err,
{
    let obj: serde_json::Value = serde_json::from_str(text).map_err(|e| e.to_string())?;
    let u64_at = |v: &serde_json::Value, p: &str| v.pointer(p).and_then(|x| x.as_u64());
    let rows = obj.pointer("/ata_smart_attributes/table").and_then(|v| v.as_array());
    Ok(SmartData {
        passed: obj.pointer("/smart_status/passed").and_then(|v| v.as_bool()),
        temperature: obj.pointer("/temperature/current").and_then(|v| v.as_i64()),
        power_on_hours: u64_at(&obj, "/power_on_time/hours"),
        attributes: rows.map(|t| {
            t.iter().map(|a| SmartAttribute { id: u64_at(a, "/id"), raw_value: u64_at(a, "/raw/value") }).collect()
        }),
    })
}

#[derive(Debug, Clone)]
pub struct SmartReport {
    pub device: String,
    pub available: Availability,
    /// SMART overall-passed (true: healthy according to SMART).
    pub passed: Option<bool>,
    pub temperature_c: Option<i32>,
    pub power_on_hours: Option<u64>,
    /// Reallocated sectors (attribute 5), the classic failure predictor.
    pub reallocated_sectors: Option<u64>,
}

/// `smartctl --json --health --attributes <device>`.
pub fn smartctl_spec(device: &str) -> (spec: CommandSpec)
    ensures
        spec.program@ == "smartctl"@,
        arg_views(spec.args@) == seq!["--json"@, "--health"@, "--attributes"@, device@],
        spec.env@.len() == 0,
        spec.timeout_secs == 30,
{
    let spec = CommandSpec::new("smartctl").arg("--json").arg("--health").arg("--attributes").arg(device).timeout(30);
    assert(arg_views(spec.args@) =~= seq!["--json"@, "--health"@, "--attributes"@, device@]);
    spec
}

/// The raw value of the LAST row with id 5 (`None` when there is none, or
/// when that row has no raw value).
pub open spec fn reallocated_of(table: Seq<SmartAttribute>) -> Option<u64>
    decreases table.len(),
{
    if table.len() == 0 {
        None
    } else if table.last().id == Some(5u64) {
        table.last().raw_value
    } else {
        reallocated_of(table.drop_last())
    }
}

/// Does any row of the table have id 5?
pub open spec fn has_id5(t: Seq<SmartAttribute>) -> bool {
    exists|i: int| 0 <= i < t.len() && (#[trigger] t[i]).id == Some(5u64)
}

/// The reallocated-sector count is the raw value of the last row with id
/// 5, wherever it stands: rows after it with other ids do not hide it.
pub proof fn law_reallocated_is_last_id5_row(p: Seq<SmartAttribute>, a: SmartAttribute, s: Seq<SmartAttribute>)
    requires
        a.id == Some(5u64),
        !has_id5(s),
    ensures
        reallocated_of(p + seq![a] + s) == a.raw_value,
    decreases s.len(),
{
    let t = p + seq![a] + s;
    if s.len() == 0 {
        assert(t.drop_last() =~= p);
        assert(t.last() == a);
    } else {
        assert(t.drop_last() =~= p + seq![a] + s.drop_last());
        assert(t.last() == s[s.len() - 1]);
        assert(s[s.len() - 1].id != Some(5u64));
        assert(!has_id5(s.drop_last())) by {
            if has_id5(s.drop_last()) {
                let i = choose|i: int| 0 <= i < s.drop_last().len() && (#[trigger] s.drop_last()[i]).id == Some(5u64);
                assert(s[i] == s.drop_last()[i]);
            }
        }
        law_reallocated_is_last_id5_row(p, a, s.drop_last());
    }
}

/// A table with no row of id 5 has no reallocated count.
pub proof fn law_no_id5_no_count(t: Seq<SmartAttribute>)
    requires
        !has_id5(t),
    ensures
        reallocated_of(t) is None,
    decreases t.len(),
{
    if t.len() > 0 {
        assert(t.last() == t[t.len() - 1]);
        assert(!has_id5(t.drop_last())) by {
            if has_id5(t.drop_last()) {
                let i = choose|i: int| 0 <= i < t.drop_last().len() && (#[trigger] t.drop_last()[i]).id == Some(5u64);
                assert(t[i] == t.drop_last()[i]);
            }
        }
        law_no_id5_no_count(t.drop_last());
    }
}

/// smartctl refused for lack of privilege.
pub open spec fn permission_refused(r: ExecResult) -> bool {
    fold_contains(r.stderr@, "permission denied"@) || fold_contains(r.stdout@, "permission denied"@)
        || fold_contains(r.stderr@, "root"@)
}

/// Availability of a report: unavailable with exactly this code and reason.
pub open spec fn unavailable_as(a: Availability, code: Seq<char>, reason: Seq<char>) -> bool {
    a matches Availability::Unavailable { reason_code, reason: r } && reason_code@ == code && r@ == reason
}

/// The report has no health value at all.
pub open spec fn no_values(r: SmartReport) -> bool {
    r.passed is None && r.temperature_c is None && r.power_on_hours is None && r.reallocated_sectors is None
}

fn reallocated(table: &Vec<SmartAttribute>) -> (r: Option<u64>)
    ensures
        r == reallocated_of(table@),
{
    let mut r: Option<u64> = None;
    let mut i: usize = 0;
    while i < table.len()
        invariant
            i <= table.len(),
            r == reallocated_of(table@.take(i as int)),
        decreases table.len() - i,
    {
        proof {
            assert(table@.take(i + 1).drop_last() =~= table@.take(i as int));
            assert(table@.take(i + 1).last() == table@[i as int]);
        }
        if table[i].id == Some(5u64) {
            r = table[i].raw_value;
        }
        i += 1;
    }
    proof {
        assert(table@.take(table.len() as int) =~= table@);
    }
    r
}

/// The parse outcome in plain values.
pub open spec fn parsed_view(p: Result<SmartData, String>) -> Result<SmartDataV, Seq<char>> {
    match p {
        Ok(d) => Ok(d@),
        Err(m) => Err(m@),
    }
}

/// What a report of `device` says, given smartctl's `stdout` and what
/// reading it as JSON gave.
pub open spec fn reports(rep: SmartReport, device: Seq<char>, stdout: Seq<char>, parsed: Result<SmartDataV, Seq<char>>) -> bool {
    &&& rep.device@ == device
    &&& match parsed {
        Err(msg) => unavailable_as(rep.available, "SF-DEP-008"@,
            "saída do smartctl não pôde ser interpretada: "@ + msg) && no_values(rep),
        Ok(d) => if d.passed is None && trim(stdout).len() == 0 {
            unavailable_as(rep.available, "SF-DEP-008"@, "smartctl não retornou dados legíveis"@)
                && no_values(rep)
        } else {
            &&& rep.available is Available
            &&& rep.passed == d.passed
            &&& rep.temperature_c == (match d.temperature {
                Some(t) => Some(t as i32),
                None => None,
            })
            &&& rep.power_on_hours == d.power_on_hours
            &&& rep.reallocated_sectors == (match d.attributes {
                Some(t) => reallocated_of(t),
                None => None,
            })
        },
    }
}

/// The report of `device` from smartctl's `stdout` and what reading it as
/// JSON gave (`parsed`): the values read, or why there are none.
pub fn smart_report(device: &str, stdout: &str, parsed: &Result<SmartData, String>) -> (rep: SmartReport)
    ensures
        reports(rep, device@, stdout@, parsed_view(*parsed)),
        !(rep.available is Available) ==> no_values(rep),
{
    let mut report = SmartReport {
        device: String::from_str(device),
        available: Availability::Available,
        passed: None,
        temperature_c: None,
        power_on_hours: None,
        reallocated_sectors: None,
    };
    match parsed {
        Ok(d) => {
            let out = chars_of(stdout);
            let (a, b) = trim_bounds(out.as_slice());
            if d.passed.is_none() && a == b {
                report.available = Availability::unavailable("SF-DEP-008", "smartctl não retornou dados legíveis");
                return report;
            }
            report.passed = d.passed;
            report.temperature_c = match d.temperature {
                Some(t) => Some(t as i32),
                None => None,
            };
            report.power_on_hours = d.power_on_hours;
            report.reallocated_sectors = match &d.attributes {
                Some(t) => reallocated(t),
                None => None,
            };
        },
        Err(msg) => {
            let mut m = String::from_str("saída do smartctl não pôde ser interpretada: ");
            crate::text::push_str(&mut m, msg.as_str());
            report.available = Availability::unavailable("SF-DEP-008", m.as_str());
        },
    }
    report
}

/// The health report of `device`. `smartctl_found`: smartctl is on the
/// PATH; `run`: the outcome of [`smartctl_spec`], whose stdout is read as
/// JSON (`parse_smart_json`) and reported by [`smart_report`]. An
/// unavailable report carries no value.
pub fn smart_health(
    device: &str,
    smartctl_found: bool,
    run: &Result<ExecResult, crate::error::SysforgeError>,
) -> (rep: SmartReport)
    ensures
        rep.device@ == device@,
        !smartctl_found ==> unavailable_as(rep.available, "SF-DEP-005"@,
            "smartctl (pacote smartmontools) não está instalado neste sistema"@) && no_values(rep),
        smartctl_found ==> match run {
            Err(e) => unavailable_as(rep.available, "SF-DEP-007"@, e.message@) && no_values(rep),
            Ok(r) => if r.exit_code != Some(0i32) && permission_refused(*r) {
                unavailable_as(rep.available, "SF-DEP-006"@, "smartctl requer root para ler este dispositivo"@)
                    && no_values(rep)
            } else {
                reports(rep, device@, r.stdout@, smart_json(r.stdout@))
            },
        },
        !(rep.available is Available) ==> no_values(rep),
{
    let mut report = SmartReport {
        device: String::from_str(device),
        available: Availability::Available,
        passed: None,
        temperature_c: None,
        power_on_hours: None,
        reallocated_sectors: None,
    };
    if !smartctl_found {
        report.available = Availability::unavailable(
            "SF-DEP-005",
            "smartctl (pacote smartmontools) não está instalado neste sistema",
        );
        return report;
    }
    let r = match run {
        Ok(r) => r,
        Err(e) => {
            report.available = Availability::unavailable("SF-DEP-007", e.message.as_str());
            return report;
        },
    };
    if !r.success() {
        if fold_contains_str(r.stderr.as_str(), "permission denied") || fold_contains_str(
            r.stdout.as_str(),
            "permission denied",
        ) || fold_contains_str(r.stderr.as_str(), "root") {
            report.available = Availability::unavailable(
                "SF-DEP-006",
                "smartctl requer root para ler este dispositivo",
            );
            return report;
        }
    }
    let parsed = parse_smart_json(r.stdout.as_str());
    smart_report(device, r.stdout.as_str(), &parsed)
}

} // verus!
