//! The canonical text of an operation record, over which its checksum is
//! computed: a compact JSON object with the fields in declaration order,
//! the checksum field always empty, absent `expected_next_boot` and
//! `rollback_possible` left out, other absent values written as `null`.

use vstd::prelude::*;

use crate::state::{hex_digit, OperationRecord, OperationState, TransitionEntry};
use crate::text::{chars_of, opt_view, push_char, push_str};

verus! {

/// The JSON escape of one character.
pub open spec fn esc_char(c: char) -> Seq<char> {
    if c == '"' {
        seq!['\\', '"']
    } else if c == '\\' {
        seq!['\\', '\\']
    } else if c == '\n' {
        seq!['\\', 'n']
    } else if c == '\r' {
        seq!['\\', 'r']
    } else if c == '\t' {
        seq!['\\', 't']
    } else if c == '\x08' {
        seq!['\\', 'b']
    } else if c == '\x0c' {
        seq!['\\', 'f']
    } else if (c as u32) < 32 {
        seq!['\\', 'u', '0', '0', hex_digit(((c as u32) / 16) as u8), hex_digit(((c as u32) % 16) as u8)]
    } else {
        seq![c]
    }
}

/// The JSON escape of a text.
pub open spec fn json_escaped(s: Seq<char>) -> Seq<char>
    decreases s.len(),
{
    if s.len() == 0 {
        seq![]
    } else {
        json_escaped(s.drop_last()) + esc_char(s.last())
    }
}

/// A JSON string.
pub open spec fn json_str(s: Seq<char>) -> Seq<char> {
    seq!['"'] + json_escaped(s) + seq!['"']
}

/// A JSON string, or `null`.
pub open spec fn json_opt(o: Option<Seq<char>>) -> Seq<char> {
    match o {
        Some(s) => json_str(s),
        None => seq!['n', 'u', 'l', 'l'],
    }
}

/// The serialized name of a state.
pub open spec fn state_name(s: OperationState) -> Seq<char> {
    match s {
        OperationState::Idle => "idle"@,
        OperationState::Planning => "planning"@,
        OperationState::Validating => "validating"@,
        OperationState::Staging => "staging"@,
        OperationState::Ready => "ready"@,
        OperationState::Rebooting => "rebooting"@,
        OperationState::BootedRecovery => "booted_recovery"@,
        OperationState::Deploying => "deploying"@,
        OperationState::Configuring => "configuring"@,
        OperationState::Verifying => "verifying"@,
        OperationState::Completed => "completed"@,
        OperationState::Failed => "failed"@,
        OperationState::Cancelled => "cancelled"@,
        OperationState::Rollback => "rollback"@,
    }
}

/// One history entry.
pub open spec fn entry_text(e: TransitionEntry) -> Seq<char> {
    "{\"from\":\""@ + state_name(e.from) + "\",\"to\":\""@ + state_name(e.to) + "\",\"at\":"@ + json_str(e.at@)
        + ",\"note\":"@ + json_opt(opt_view(e.note)) + "}"@
}

/// The history entries, separated by commas.
pub open spec fn entries_text(es: Seq<TransitionEntry>) -> Seq<char>
    decreases es.len(),
{
    if es.len() == 0 {
        seq![]
    } else if es.len() == 1 {
        entry_text(es[0])
    } else {
        entries_text(es.drop_last()) + seq![','] + entry_text(es.last())
    }
}

/// The canonical text of a record (its checksum field written empty).
pub open spec fn canonical_text(r: OperationRecord) -> Seq<char> {
    "{\"operation_id\":"@ + json_str(r.operation_id@) + ",\"state\":\""@ + state_name(r.state)
        + "\",\"created_at\":"@ + json_str(r.created_at@) + ",\"updated_at\":"@ + json_str(r.updated_at@)
        + ",\"mode\":"@ + json_opt(opt_view(r.mode)) + ",\"target\":"@ + json_opt(opt_view(r.target))
        + ",\"disk\":"@ + json_opt(opt_view(r.disk)) + match r.expected_next_boot {
        Some(s) => ",\"expected_next_boot\":"@ + json_str(s@),
        None => Seq::<char>::empty(),
    } + match r.rollback_possible {
        Some(b) => if b {
            ",\"rollback_possible\":true"@
        } else {
            ",\"rollback_possible\":false"@
        },
        None => Seq::<char>::empty(),
    } + ",\"transitions\":["@ + entries_text(r.transitions@) + "],\"checksum\":\"\"}"@
}

fn push_esc_char(out: &mut String, c: char)
    ensures
        final(out)@ == old(out)@ + esc_char(c),
{
    if c == '"' || c == '\\' {
        push_char(out, '\\');
        push_char(out, c);
    } else if c == '\n' {
        push_char(out, '\\');
        push_char(out, 'n');
    } else if c == '\r' {
        push_char(out, '\\');
        push_char(out, 'r');
    } else if c == '\t' {
        push_char(out, '\\');
        push_char(out, 't');
    } else if c == '\x08' {
        push_char(out, '\\');
        push_char(out, 'b');
    } else if c == '\x0c' {
        push_char(out, '\\');
        push_char(out, 'f');
    } else if (c as u32) < 32 {
        let n: u8 = (c as u32) as u8;
        push_char(out, '\\');
        push_char(out, 'u');
        push_char(out, '0');
        push_char(out, '0');
        push_char(out, crate::state::hex_digit_of(n / 16));
        push_char(out, crate::state::hex_digit_of(n % 16));
        assert(((c as u32) / 16) as u8 == n / 16);
        assert(((c as u32) % 16) as u8 == n % 16);
    } else {
        push_char(out, c);
    }
    assert(final(out)@ =~= old(out)@ + esc_char(c));
}

fn push_json_str(out: &mut String, s: &str)
    ensures
        final(out)@ == old(out)@ + json_str(s@),
{
    let v = chars_of(s);
    push_char(out, '"');
    let ghost start = out@;
    let mut i: usize = 0;
    while i < v.len()
        invariant
            i <= v.len(),
            v@ == s@,
            out@ == start + json_escaped(v@.take(i as int)),
        decreases v.len() - i,
    {
        proof {
            assert(v@.take(i + 1).drop_last() =~= v@.take(i as int));
            assert(v@.take(i + 1).last() == v@[i as int]);
        }
        push_esc_char(out, v[i]);
        i += 1;
    }
    assert(v@.take(v.len() as int) =~= v@);
    push_char(out, '"');
    assert(out@ =~= old(out)@ + json_str(s@));
}

fn push_json_opt(out: &mut String, o: &Option<String>)
    ensures
        final(out)@ == old(out)@ + json_opt(opt_view(*o)),
{
    match o {
        Some(s) => push_json_str(out, s.as_str()),
        None => {
            push_char(out, 'n');
            push_char(out, 'u');
            push_char(out, 'l');
            push_char(out, 'l');
            assert(out@ =~= old(out)@ + json_opt(opt_view(*o)));
        },
    }
}

/// The serialized name of a state.
pub fn state_name_of(s: OperationState) -> (r: &'static str)
    ensures
        r@ == state_name(s),
{
    match s {
        OperationState::Idle => "idle",
        OperationState::Planning => "planning",
        OperationState::Validating => "validating",
        OperationState::Staging => "staging",
        OperationState::Ready => "ready",
        OperationState::Rebooting => "rebooting",
        OperationState::BootedRecovery => "booted_recovery",
        OperationState::Deploying => "deploying",
        OperationState::Configuring => "configuring",
        OperationState::Verifying => "verifying",
        OperationState::Completed => "completed",
        OperationState::Failed => "failed",
        OperationState::Cancelled => "cancelled",
        OperationState::Rollback => "rollback",
    }
}

fn push_entry(out: &mut String, e: &TransitionEntry)
    ensures
        final(out)@ == old(out)@ + entry_text(*e),
{
    push_str(out, "{\"from\":\"");
    push_str(out, state_name_of(e.from));
    push_str(out, "\",\"to\":\"");
    push_str(out, state_name_of(e.to));
    push_str(out, "\",\"at\":");
    push_json_str(out, e.at.as_str());
    push_str(out, ",\"note\":");
    push_json_opt(out, &e.note);
    push_str(out, "}");
    assert(out@ =~= old(out)@ + entry_text(*e));
}

/// The canonical text of a record (its checksum field written empty).
pub fn canonical_json(r: &OperationRecord) -> (s: String)
    ensures
        s@ == canonical_text(*r),
{
    let mut out = String::new();
    push_str(&mut out, "{\"operation_id\":");
    push_json_str(&mut out, r.operation_id.as_str());
    push_str(&mut out, ",\"state\":\"");
    push_str(&mut out, state_name_of(r.state));
    push_str(&mut out, "\",\"created_at\":");
    push_json_str(&mut out, r.created_at.as_str());
    push_str(&mut out, ",\"updated_at\":");
    push_json_str(&mut out, r.updated_at.as_str());
    push_str(&mut out, ",\"mode\":");
    push_json_opt(&mut out, &r.mode);
    push_str(&mut out, ",\"target\":");
    push_json_opt(&mut out, &r.target);
    push_str(&mut out, ",\"disk\":");
    push_json_opt(&mut out, &r.disk);
    let ghost head = out@;
    match &r.expected_next_boot {
        Some(s) => {
            push_str(&mut out, ",\"expected_next_boot\":");
            push_json_str(&mut out, s.as_str());
        },
        None => {},
    }
    let ghost with_boot = out@;
    match r.rollback_possible {
        Some(b) => if b {
            push_str(&mut out, ",\"rollback_possible\":true");
        } else {
            push_str(&mut out, ",\"rollback_possible\":false");
        },
        None => {},
    }
    let ghost with_rollback = out@;
    push_str(&mut out, ",\"transitions\":[");
    let ghost before_entries = out@;
    let mut i: usize = 0;
    while i < r.transitions.len()
        invariant
            i <= r.transitions.len(),
            out@ == before_entries + entries_text(r.transitions@.take(i as int)),
        decreases r.transitions.len() - i,
    {
        let ghost t = r.transitions@.take(i + 1);
        proof {
            assert(t.drop_last() =~= r.transitions@.take(i as int));
            assert(t.last() == r.transitions@[i as int]);
        }
        if i > 0 {
            push_char(&mut out, ',');
        } else {
            assert(t.len() == 1 && t[0] == r.transitions@[0]);
            assert(entries_text(r.transitions@.take(0)) =~= Seq::<char>::empty());
        }
        push_entry(&mut out, &r.transitions[i]);
        proof {
            if i == 0 {
                assert(out@ =~= before_entries + entries_text(t));
            } else {
                assert(out@ =~= before_entries + entries_text(t));
            }
        }
        i += 1;
    }
    assert(r.transitions@.take(r.transitions.len() as int) =~= r.transitions@);
    push_str(&mut out, "],\"checksum\":\"\"}");
    proof {
        assert(with_boot == head + match r.expected_next_boot {
            Some(s) => ",\"expected_next_boot\":"@ + json_str(s@),
            None => Seq::<char>::empty(),
        });
        assert(with_rollback == with_boot + match r.rollback_possible {
            Some(b) => if b {
                ",\"rollback_possible\":true"@
            } else {
                ",\"rollback_possible\":false"@
            },
            None => Seq::<char>::empty(),
        });
        assert(out@ =~= canonical_text(*r));
    }
    out
}

} // verus!
