//! Filesystem probing through `blkid -o export` (`KEY=VALUE` lines).

use vstd::prelude::*;

use crate::error::{error_code, ErrorDomain, SysforgeError};
use crate::executor::{CommandSpec, ExecResult};
use crate::props::PropertyMap;
use crate::text::{
    chars_of, lines, lines_of, split_once, split_once_of, starts_with, string_from, trim,
    trim_char, trim_char_of, trim_chars, words, words_of,
};

verus! {

/// The properties of the tokens of one line, added in order.
pub open spec fn tokens_props(m: Map<Seq<char>, Seq<char>>, toks: Seq<Seq<char>>) -> Map<Seq<char>, Seq<char>>
    decreases toks.len(),
{
    if toks.len() == 0 {
        m
    } else {
        let m2 = tokens_props(m, toks.drop_last());
        match split_once(toks.last(), '=') {
            Some((k, v)) => m2.insert(trim(k), trim_char(v, '"')),
            None => m2,
        }
    }
}

/// Blank lines and `#` comments carry nothing.
pub open spec fn skipped_line(t: Seq<char>) -> bool {
    t.len() == 0 || t[0] == '#'
}

/// The properties of the first lines.
pub open spec fn blkid_props(ls: Seq<Seq<char>>) -> Map<Seq<char>, Seq<char>>
    decreases ls.len(),
{
    if ls.len() == 0 {
        Map::empty()
    } else {
        let m = blkid_props(ls.drop_last());
        let t = trim(ls.last());
        if skipped_line(t) {
            m
        } else {
            tokens_props(m, words(t))
        }
    }
}

/// Parser of the blkid export format (`KEY=value`, one per line with
/// `-o export`; `dev: KEY="V" ...` in the classic output).
pub fn parse_blkid_export(output: &str) -> (m: PropertyMap)
    ensures
        m.view() == blkid_props(lines(output@)),
{
    let text = chars_of(output);
    let ls = lines_of(text.as_slice());
    let ghost all = lines(output@);
    let mut m = PropertyMap::new();
    let mut i: usize = 0;
    assert(all.take(0) =~= Seq::<Seq<char>>::empty());
    while i < ls.len()
        invariant
            i <= ls.len() == all.len(),
            all == lines(output@),
            forall|k: int| 0 <= k < ls@.len() ==> #[trigger] ls@[k]@ == all[k],
            m.view() == blkid_props(all.take(i as int)),
        decreases ls.len() - i,
    {
        let t = trim_chars(ls[i].as_slice());
        proof {
            assert(all.take(i + 1).drop_last() =~= all.take(i as int));
        }
        if t.len() > 0 && t[0] != '#' {
            let toks = words_of(t.as_slice());
            let ghost base = m.view();
            let mut j: usize = 0;
            assert(words(t@).take(0) =~= Seq::<Seq<char>>::empty());
            while j < toks.len()
                invariant
                    j <= toks.len() == words(t@).len(),
                    forall|k: int| 0 <= k < toks@.len() ==> #[trigger] toks@[k]@ == words(t@)[k],
                    m.view() == tokens_props(base, words(t@).take(j as int)),
                decreases toks.len() - j,
            {
                proof {
                    assert(words(t@).take(j + 1).drop_last() =~= words(t@).take(j as int));
                }
                match split_once_of(toks[j].as_slice(), '=') {
                    Some((k, v)) => {
                        let kt = trim_chars(k.as_slice());
                        let vt = trim_char_of(v.as_slice(), '"');
                        m.insert(string_from(kt.as_slice()), string_from(vt.as_slice()));
                    },
                    None => {},
                }
                j += 1;
            }
            proof {
                assert(words(t@).take(toks.len() as int) =~= words(t@));
            }
        }
        i += 1;
    }
    proof {
        assert(all.take(ls.len() as int) =~= all);
    }
    m
}

/// The `blkid` command for one device.
pub fn blkid_spec(device: &str) -> (spec: CommandSpec)
    ensures
        spec.program@ == "blkid"@,
        crate::executor::arg_views(spec.args@) == seq!["--output"@, "export"@, device@],
        spec.timeout_secs == 15,
{
    let s = CommandSpec::new("blkid").arg("--output").arg("export").arg(device).timeout(15);
    assert(crate::executor::arg_views(s.args@) =~= seq!["--output"@, "export"@, device@]);
    s
}

/// The properties of a device from a finished `blkid` run; a failure is
/// reported honestly to the caller.
pub fn probe_blkid(r: &ExecResult) -> (out: Result<PropertyMap, SysforgeError>)
    ensures
        r.exit_code == Some(0i32) ==> (out matches Ok(m) && m.view() == blkid_props(lines(r.stdout@))),
        r.exit_code != Some(0i32) ==> (out matches Err(e) && e.code@ == error_code(ErrorDomain::Io, 1)
            && e.message@ == "O comando `"@ + "blkid"@ + "` falhou"@),
{
    if !r.success() {
        let no_args: Vec<String> = Vec::new();
        return Err(SysforgeError::command_failed("blkid", no_args.as_slice(), r.exit_code, r.stderr.as_str()));
    }
    Ok(parse_blkid_export(r.stdout.as_str()))
}

} // verus!
