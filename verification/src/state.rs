//! State machine of a deployment operation.
//!
//! An installation crosses a reboot, so its progress is an explicit graph
//! of states, not loose booleans: terminal states never move, every active
//! state can fail, be cancelled or roll back, and the happy path is a strict
//! sequence that may only step back to re-plan with real data.

use vstd::prelude::*;

use sha2::Digest;

use crate::error::{error_code, ErrorDomain, SysforgeError};
use crate::canonical::{canonical_json, canonical_text};
use crate::text::{clone_opt, opt_view, push_char, push_str};

verus! {

#[derive(Debug, Clone, Copy, PartialEq, Eq, Structural)]
pub enum OperationState {
    Idle,
    Planning,
    Validating,
    Staging,
    Ready,
    Rebooting,
    BootedRecovery,
    Deploying,
    Configuring,
    Verifying,
    Completed,
    Failed,
    Cancelled,
    Rollback,
}

pub open spec fn state_label(s: OperationState) -> Seq<char> {
    match s {
        OperationState::Idle => "IDLE"@,
        OperationState::Planning => "PLANNING"@,
        OperationState::Validating => "VALIDATING"@,
        OperationState::Staging => "STAGING"@,
        OperationState::Ready => "READY"@,
        OperationState::Rebooting => "REBOOTING"@,
        OperationState::BootedRecovery => "BOOTED_RECOVERY"@,
        OperationState::Deploying => "DEPLOYING"@,
        OperationState::Configuring => "CONFIGURING"@,
        OperationState::Verifying => "VERIFYING"@,
        OperationState::Completed => "COMPLETED"@,
        OperationState::Failed => "FAILED"@,
        OperationState::Cancelled => "CANCELLED"@,
        OperationState::Rollback => "ROLLBACK"@,
    }
}

/// Terminal states: the operation is over.
pub open spec fn is_terminal(s: OperationState) -> bool {
    s == OperationState::Completed || s == OperationState::Failed || s == OperationState::Cancelled
        || s == OperationState::Rollback
}

/// Safety exits, reachable from every active state.
pub open spec fn is_exit(s: OperationState) -> bool {
    s == OperationState::Failed || s == OperationState::Cancelled || s == OperationState::Rollback
}

/// The explicit transition graph.
pub open spec fn allowed(from: OperationState, to: OperationState) -> bool {
    if is_terminal(from) {
        false
    } else if is_exit(to) {
        true
    } else {
        match (from, to) {
            (OperationState::Idle, OperationState::Planning) => true,
            (OperationState::Planning, OperationState::Validating) => true,
            (OperationState::Planning, OperationState::Idle) => true,
            (OperationState::Validating, OperationState::Staging) => true,
            (OperationState::Validating, OperationState::Planning) => true,
            (OperationState::Staging, OperationState::Ready) => true,
            (OperationState::Staging, OperationState::Validating) => true,
            (OperationState::Ready, OperationState::Rebooting) => true,
            (OperationState::Ready, OperationState::Staging) => true,
            (OperationState::Rebooting, OperationState::BootedRecovery) => true,
            (OperationState::BootedRecovery, OperationState::Deploying) => true,
            (OperationState::Deploying, OperationState::Configuring) => true,
            (OperationState::Configuring, OperationState::Verifying) => true,
            (OperationState::Verifying, OperationState::Completed) => true,
            _ => false,
        }
    }
}

/// Position on the happy path (Idle = 0 … Completed = 10); exits have none.
pub open spec fn happy_rank(s: OperationState) -> int {
    match s {
        OperationState::Idle => 0,
        OperationState::Planning => 1,
        OperationState::Validating => 2,
        OperationState::Staging => 3,
        OperationState::Ready => 4,
        OperationState::Rebooting => 5,
        OperationState::BootedRecovery => 6,
        OperationState::Deploying => 7,
        OperationState::Configuring => 8,
        OperationState::Verifying => 9,
        OperationState::Completed => 10,
        _ => -1,
    }
}

/// The happy path, in order.
pub open spec fn happy_path() -> Seq<OperationState> {
    seq![
        OperationState::Idle,
        OperationState::Planning,
        OperationState::Validating,
        OperationState::Staging,
        OperationState::Ready,
        OperationState::Rebooting,
        OperationState::BootedRecovery,
        OperationState::Deploying,
        OperationState::Configuring,
        OperationState::Verifying,
        OperationState::Completed,
    ]
}

impl OperationState {
    pub fn label(self) -> (r: &'static str)
        ensures
            r@ == state_label(self),
    {
        match self {
            OperationState::Idle => "IDLE",
            OperationState::Planning => "PLANNING",
            OperationState::Validating => "VALIDATING",
            OperationState::Staging => "STAGING",
            OperationState::Ready => "READY",
            OperationState::Rebooting => "REBOOTING",
            OperationState::BootedRecovery => "BOOTED_RECOVERY",
            OperationState::Deploying => "DEPLOYING",
            OperationState::Configuring => "CONFIGURING",
            OperationState::Verifying => "VERIFYING",
            OperationState::Completed => "COMPLETED",
            OperationState::Failed => "FAILED",
            OperationState::Cancelled => "CANCELLED",
            OperationState::Rollback => "ROLLBACK",
        }
    }

    /// Legal transitions of the flow (explicit graph, not conventions).
    pub fn can_transition(self, to: OperationState) -> (b: bool)
        ensures
            b == allowed(self, to),
    {
        match self {
            OperationState::Completed | OperationState::Failed | OperationState::Cancelled
            | OperationState::Rollback => {
                return false;
            },
            _ => {},
        }
        match to {
            OperationState::Failed | OperationState::Cancelled | OperationState::Rollback => {
                return true;
            },
            _ => {},
        }
        match (self, to) {
            (OperationState::Idle, OperationState::Planning)
            | (OperationState::Planning, OperationState::Validating)
            | (OperationState::Planning, OperationState::Idle)
            | (OperationState::Validating, OperationState::Staging)
            | (OperationState::Validating, OperationState::Planning)
            | (OperationState::Staging, OperationState::Ready)
            | (OperationState::Staging, OperationState::Validating)
            | (OperationState::Ready, OperationState::Rebooting)
            | (OperationState::Ready, OperationState::Staging)
            | (OperationState::Rebooting, OperationState::BootedRecovery)
            | (OperationState::BootedRecovery, OperationState::Deploying)
            | (OperationState::Deploying, OperationState::Configuring)
            | (OperationState::Configuring, OperationState::Verifying)
            | (OperationState::Verifying, OperationState::Completed) => true,
            _ => false,
        }
    }
}

/// Terminal states never transition: recovery after a reboot is an
/// explicit decision of the recovery operation, not an automatic move.
pub proof fn law_terminal_states_are_final(from: OperationState, to: OperationState)
    requires
        is_terminal(from),
    ensures
        !allowed(from, to),
{
}

/// Any active state may fail, be cancelled or start a rollback: the
/// rollback is always a safety exit.
pub proof fn law_active_states_can_always_exit(from: OperationState, to: OperationState)
    requires
        !is_terminal(from),
        is_exit(to),
    ensures
        allowed(from, to),
{
}

/// The happy path is walkable step by step from Idle to Completed.
pub proof fn law_happy_path_is_walkable(i: int)
    requires
        0 <= i < happy_path().len() - 1,
    ensures
        allowed(happy_path()[i], happy_path()[i + 1]),
        happy_rank(happy_path()[i]) == i,
{
}

/// Moves on the happy path are exactly one step: forward no state is
/// skipped on the way to Completed, and backward (to re-plan with real
/// data) only Planning, Validating, Staging and Ready go, one step back.
pub proof fn law_no_forward_skips(from: OperationState, to: OperationState)
    requires
        allowed(from, to),
        !is_exit(to),
    ensures
        happy_rank(from) >= 0,
        happy_rank(to) >= 0,
        happy_rank(to) == happy_rank(from) + 1 || happy_rank(to) == happy_rank(from) - 1,
        happy_rank(to) == happy_rank(from) - 1 ==> 1 <= happy_rank(from) <= 4,
{
}

/// Completed is reached only from Verifying.
pub proof fn law_completion_only_after_verifying(from: OperationState)
    requires
        allowed(from, OperationState::Completed),
    ensures
        from == OperationState::Verifying,
{
}


// ------------------------------------------------------------ the record

/// One recorded transition.
#[derive(Debug, Clone)]
pub struct TransitionEntry {
    pub from: OperationState,
    pub to: OperationState,
    /// RFC 3339 time of the transition.
    pub at: String,
    pub note: Option<String>,
}

/// The persisted record of an operation. Its `checksum` is the SHA-256
/// (lower-case hex) of the record's canonical text (see
/// [`crate::canonical`]), which leaves the checksum field empty.
#[derive(Debug, Clone)]
pub struct OperationRecord {
    pub operation_id: String,
    pub state: OperationState,
    /// RFC 3339 times.
    pub created_at: String,
    pub updated_at: String,
    /// Installation mode (express, advanced, automated, recovery, custom).
    pub mode: Option<String>,
    /// Target (e.g. "windows-11-25h2").
    pub target: Option<String>,
    /// Target disk under /dev/... (when there is one).
    pub disk: Option<String>,
    pub expected_next_boot: Option<String>,
    pub rollback_possible: Option<bool>,
    pub transitions: Vec<TransitionEntry>,
    pub checksum: String,
}

/// A recorded transition follows the graph.
#[verifier::opaque]
pub open spec fn edge_ok(e: TransitionEntry) -> bool {
    allowed(e.from, e.to)
}

/// The history tells how the record got to its state: each entry is an
/// allowed transition, each starts where the previous ended, the first
/// starts at Idle and the last ends at the current state.
pub open spec fn history_consistent(r: OperationRecord) -> bool {
    let t = r.transitions@;
    &&& forall|k: int| 0 <= k < t.len() ==> edge_ok(#[trigger] t[k])
    &&& forall|i: int, j: int| 0 <= i < j < t.len() && j == i + 1 ==> (#[trigger] t[i]).to == (#[trigger] t[j]).from
    &&& t.len() == 0 ==> r.state == OperationState::Idle
    &&& t.len() > 0 ==> t[0].from == OperationState::Idle && t.last().to == r.state
}

/// `std::time::SystemTime`, carried from the clock read to the epoch
/// offset.
#[verifier::external_type_specification]
#[verifier::external_body]
pub struct ExSystemTime(std::time::SystemTime);

/// `SystemTime::now`: the clock, about which nothing can be promised.
#[verifier::external_body]
fn system_time_now() -> std::time::SystemTime {
    std::time::SystemTime::now()
}

/// `SystemTime::duration_since(UNIX_EPOCH)` as whole seconds and the
/// nanoseconds past them; `None` when the time is before the epoch. The
/// nanoseconds of a `Duration` are always under one billion.
#[verifier::external_body]
fn since_epoch(t: &std::time::SystemTime) -> (r: Option<(u64, u32)>)
    ensures
        r matches Some(d) ==> d.1 < 1_000_000_000,
{
    t.duration_since(std::time::UNIX_EPOCH).ok().map(|d| (d.as_secs(), d.subsec_nanos()))
}

/// The RFC 3339 text of a UTC instant given as seconds and nanoseconds
/// since the epoch, when chrono can represent it.
pub uninterp spec fn rfc3339_text(secs: i64, nanos: u32) -> Option<Seq<char>>;

/// `DateTime::<Utc>::from_timestamp(secs, nanos)` from chrono, then
/// `to_rfc3339`: `None` when the instant is out of chrono's range; the
/// text is named.
#[verifier::external_body]
fn rfc3339_at(secs: i64, nanos: u32) -> (r: Option<String>)
    ensures
        opt_view(r) == rfc3339_text(secs, nanos),
{
    chrono::DateTime::from_timestamp(secs, nanos).map(|t| t.to_rfc3339())
}

/// The current time (UTC) in RFC 3339, or `None` when the clock reads a
/// time that cannot be dated (before the epoch, or out of range).
pub(crate) fn now_rfc3339() -> (r: Option<String>)
{
    let now = system_time_now();
    match since_epoch(&now) {
        None => None,
        Some((secs, nanos)) => {
            if secs > 9_223_372_036_854_775_807u64 {
                None
            } else {
                rfc3339_at(secs as i64, nanos)
            }
        },
    }
}

/// The error for a clock that cannot date an operation.
pub fn clock_unusable() -> (e: SysforgeError)
    ensures
        e.code@ == error_code(ErrorDomain::Io, 14),
        e.message@ == "Relógio do sistema inutilizável: não há como datar a operação"@,
        e.recommendation@ == "Acerte a data e a hora do sistema (timedatectl) e tente de novo."@,
{
    SysforgeError::new(ErrorDomain::Io, 14, "Relógio do sistema inutilizável: não há como datar a operação")
        .with_recommendation("Acerte a data e a hora do sistema (timedatectl) e tente de novo.")
}

/// SHA-256 digest of the UTF-8 bytes of a text.
pub uninterp spec fn sha256_digest(text: Seq<char>) -> Seq<u8>;

/// `Sha256::digest` from sha2 over the UTF-8 bytes of `text`: the 32-byte
/// digest.
#[verifier::external_body]
fn sha256(text: &str) -> (d: Vec<u8>)
    ensures
        d@ == sha256_digest(text@),
        d@.len() == 32,
{
    sha2::Sha256::digest(text.as_bytes()).to_vec()
}

/// Lower-case hex digit of a nibble.
pub open spec fn hex_digit(n: u8) -> char {
    if n < 10 {
        ((n + 48) as u8) as char
    } else {
        ((n + 87) as u8) as char
    }
}

/// Lower-case hex of bytes, two digits per byte (`{:x}` of a digest).
pub open spec fn hex_of(b: Seq<u8>) -> Seq<char>
    decreases b.len(),
{
    if b.len() == 0 {
        seq![]
    } else {
        hex_of(b.drop_last()) + seq![hex_digit(b.last() / 16), hex_digit(b.last() % 16)]
    }
}

pub(crate) fn hex_digit_of(n: u8) -> (c: char)
    requires
        n < 16,
    ensures
        c == hex_digit(n),
{
    if n < 10 {
        ((n + 48) as u8) as char
    } else {
        ((n + 87) as u8) as char
    }
}

/// Lower-case hex of bytes.
pub fn hex_lower(b: &[u8]) -> (s: String)
    ensures
        s@ == hex_of(b@),
{
    let mut s = String::new();
    let mut i: usize = 0;
    while i < b.len()
        invariant
            i <= b.len(),
            s@ == hex_of(b@.take(i as int)),
        decreases b.len() - i,
    {
        proof {
            assert(b@.take(i + 1).drop_last() =~= b@.take(i as int));
            assert(b@.take(i + 1).last() == b@[i as int]);
        }
        push_char(&mut s, hex_digit_of(b[i] / 16));
        push_char(&mut s, hex_digit_of(b[i] % 16));
        proof {
            assert(s@ =~= hex_of(b@.take(i + 1)));
        }
        i += 1;
    }
    proof {
        assert(b@.take(b.len() as int) =~= b@);
    }
    s
}

/// The checksum of a text: hex SHA-256 of its bytes.
pub open spec fn checksum_of(text: Seq<char>) -> Seq<char> {
    hex_of(sha256_digest(text))
}

/// Checksum of a text: the lower-case hex SHA-256 of its bytes.
pub fn checksum_hex(text: &str) -> (s: String)
    ensures
        s@ == checksum_of(text@),
{
    let d = sha256(text);
    hex_lower(d.as_slice())
}

/// The record carries the checksum of its own canonical text.
pub open spec fn sealed(r: OperationRecord) -> bool {
    r.checksum@ == checksum_of(canonical_text(r))
}

proof fn lemma_history_push(before: OperationRecord, after: OperationRecord, e: TransitionEntry)
    requires
        after.transitions@ == before.transitions@.push(e),
        e.from == before.state,
        edge_ok(e),
        after.state == e.to,
    ensures
        history_consistent(before) ==> history_consistent(after),
{
    let t = after.transitions@;
    let o = before.transitions@;
    if history_consistent(before) {
        assert forall|i: int, j: int| 0 <= i < j < t.len() && j == i + 1 implies (#[trigger] t[i]).to == (#[trigger] t[j]).from by {
            if j == t.len() - 1 {
                assert(t[i] == o.last());
            } else {
                assert(t[i] == o[i]);
                assert(t[j] == o[j]);
            }
        }
        assert forall|k: int| 0 <= k < t.len() implies edge_ok(#[trigger] t[k]) by {
            if k < t.len() - 1 {
                assert(t[k] == o[k]);
            }
        }
        if o.len() > 0 {
            assert(t[0] == o[0]);
        }
    }
}

impl OperationRecord {
    /// A new record in Idle, created at `now`, with no history, sealed.
    pub fn new_at(operation_id: &str, now: &str) -> (r: Self)
        ensures
            r.operation_id@ == operation_id@,
            r.state == OperationState::Idle,
            r.created_at@ == now@,
            r.updated_at@ == now@,
            r.mode is None && r.target is None && r.disk is None,
            r.expected_next_boot is None && r.rollback_possible is None,
            r.transitions@.len() == 0,
            sealed(r),
            history_consistent(r),
    {
        let mut r = OperationRecord {
            operation_id: String::from_str(operation_id),
            state: OperationState::Idle,
            created_at: String::from_str(now),
            updated_at: String::from_str(now),
            mode: None,
            target: None,
            disk: None,
            expected_next_boot: None,
            rollback_possible: None,
            transitions: Vec::new(),
            checksum: String::new(),
        };
        r.seal();
        r
    }

    /// A new record in Idle, created now (see [`OperationRecord::new_at`]);
    /// `SF-IO-014` when the clock cannot date it.
    pub fn new(operation_id: &str) -> (r: Result<Self, SysforgeError>)
        ensures
            r matches Err(e) ==> e.code@ == error_code(ErrorDomain::Io, 14),
            r matches Ok(rec) ==> {
                &&& rec.operation_id@ == operation_id@
                &&& rec.state == OperationState::Idle
                &&& rec.created_at@ == rec.updated_at@
                &&& rec.mode is None && rec.target is None && rec.disk is None
                &&& rec.expected_next_boot is None && rec.rollback_possible is None
                &&& rec.transitions@.len() == 0
                &&& sealed(rec)
                &&& history_consistent(rec)
            },
    {
        match now_rfc3339() {
            Some(now) => Ok(OperationRecord::new_at(operation_id, now.as_str())),
            None => Err(clock_unusable()),
        }
    }

    /// The checksum of the record as it stands: the hex SHA-256 of its
    /// canonical text.
    pub fn compute_checksum(&self) -> (s: String)
        ensures
            s@ == checksum_of(canonical_text(*self)),
    {
        let text = canonical_json(self);
        checksum_hex(text.as_str())
    }

    /// Stores the checksum of the record as it stands.
    pub fn seal(&mut self)
        ensures
            sealed(*final(self)),
            *final(self) == (OperationRecord { checksum: final(self).checksum, ..*old(self) }),
    {
        let c = self.compute_checksum();
        let ghost before = *self;
        self.checksum = c;
        assert(canonical_text(*self) == canonical_text(before));
    }

    /// A validated transition at time `at`, recorded in the history and
    /// sealed. An edge outside the graph is refused with `SF-STATE-002`
    /// and changes nothing.
    pub fn transition_at(&mut self, to: OperationState, note: Option<String>, at: &str) -> (r: Result<(), SysforgeError>)
        ensures
            allowed(old(self).state, to) <==> r is Ok,
            r is Err ==> *final(self) == *old(self),
            r matches Err(e) ==> e.code@ == error_code(ErrorDomain::State, 2)
                && e.message@ == "Transição inválida de "@ + state_label(old(self).state) + " para "@ + state_label(to)
                && e.technical@ == "a máquina de estados do deployment só permite transições do grafo explícito"@
                && e.recommendation@ == "Se isto ocorrer, a operação está em estado inconsistente: consulte os logs e use `sysforge recover`."@,
            r is Ok ==> {
                &&& final(self).state == to
                &&& final(self).updated_at@ == at@
                &&& final(self).transitions@.len() == old(self).transitions@.len() + 1
                &&& final(self).transitions@.drop_last() == old(self).transitions@
                &&& final(self).transitions@.last().from == old(self).state
                &&& final(self).transitions@.last().to == to
                &&& final(self).transitions@.last().at@ == at@
                &&& opt_view(final(self).transitions@.last().note) == opt_view(note)
                &&& sealed(*final(self))
                &&& *final(self) == (OperationRecord {
                    state: final(self).state,
                    updated_at: final(self).updated_at,
                    transitions: final(self).transitions,
                    checksum: final(self).checksum,
                    ..*old(self)
                })
            },
            history_consistent(*old(self)) ==> history_consistent(*final(self)),
    {
        if !self.state.can_transition(to) {
            let mut msg = String::from_str("Transição inválida de ");
            push_str(&mut msg, self.state.label());
            push_str(&mut msg, " para ");
            push_str(&mut msg, to.label());
            return Err(SysforgeError::new(ErrorDomain::State, 2, msg.as_str())
                .with_technical("a máquina de estados do deployment só permite transições do grafo explícito")
                .with_recommendation("Se isto ocorrer, a operação está em estado inconsistente: consulte os logs e use `sysforge recover`."));
        }
        let entry = TransitionEntry { from: self.state, to, at: String::from_str(at), note };
        self.state = to;
        self.updated_at = String::from_str(at);
        self.transitions.push(entry);
        proof {
            assert(self.transitions@ =~= old(self).transitions@.push(entry));
            assert(edge_ok(entry)) by {
                reveal(edge_ok);
            }
            lemma_history_push(*old(self), *self, entry);
        }
        self.seal();
        Ok(())
    }

    /// A validated transition now (see [`OperationRecord::transition_at`]):
    /// the new entry and `updated_at` carry the same time, read from the
    /// clock. A refused edge is `SF-STATE-002`, checked before the clock is
    /// read; a clock that cannot date the transition is `SF-IO-014`. Either
    /// error changes nothing.
    pub fn transition(&mut self, to: OperationState, note: Option<String>) -> (r: Result<(), SysforgeError>)
        ensures
            r is Ok ==> allowed(old(self).state, to),
            r is Err ==> *final(self) == *old(self),
            r matches Err(e) ==> if allowed(old(self).state, to) {
                e.code@ == error_code(ErrorDomain::Io, 14)
            } else {
                e.code@ == error_code(ErrorDomain::State, 2)
                && e.message@ == "Transição inválida de "@ + state_label(old(self).state) + " para "@ + state_label(to)
                && e.technical@ == "a máquina de estados do deployment só permite transições do grafo explícito"@
                && e.recommendation@ == "Se isto ocorrer, a operação está em estado inconsistente: consulte os logs e use `sysforge recover`."@
            },
            r is Ok ==> {
                &&& final(self).state == to
                &&& final(self).transitions@.len() == old(self).transitions@.len() + 1
                &&& final(self).transitions@.drop_last() == old(self).transitions@
                &&& final(self).transitions@.last().from == old(self).state
                &&& final(self).transitions@.last().to == to
                &&& final(self).transitions@.last().at@ == final(self).updated_at@
                &&& opt_view(final(self).transitions@.last().note) == opt_view(note)
                &&& sealed(*final(self))
                &&& *final(self) == (OperationRecord {
                    state: final(self).state,
                    updated_at: final(self).updated_at,
                    transitions: final(self).transitions,
                    checksum: final(self).checksum,
                    ..*old(self)
                })
            },
            history_consistent(*old(self)) ==> history_consistent(*final(self)),
    {
        if !self.state.can_transition(to) {
            return self.transition_at(to, note, "");
        }
        match now_rfc3339() {
            Some(now) => self.transition_at(to, note, now.as_str()),
            None => Err(clock_unusable()),
        }
    }

    /// Checks the stored checksum against the record as it stands (strict:
    /// a missing checksum is tampering too). `SF-STATE-003` on mismatch.
    pub fn verify_checksum(&self) -> (r: Result<(), SysforgeError>)
        ensures
            sealed(*self) <==> r is Ok,
            r matches Err(e) ==> e.code@ == error_code(ErrorDomain::State, 3)
                && e.message@ == "Arquivo de operação corrompido (checksum divergente)"@
                && e.technical@ == "esperado "@ + checksum_of(canonical_text(*self)) + ", encontrado "@ + self.checksum@
                && e.recommendation@ == "Não prossiga automaticamente. Inspecione o arquivo e os logs antes de retomar."@,
    {
        let expected = self.compute_checksum();
        if crate::text::str_eq(self.checksum.as_str(), expected.as_str()) {
            return Ok(());
        }
        let mut tech = String::from_str("esperado ");
        push_str(&mut tech, expected.as_str());
        push_str(&mut tech, ", encontrado ");
        push_str(&mut tech, self.checksum.as_str());
        Err(SysforgeError::new(ErrorDomain::State, 3, "Arquivo de operação corrompido (checksum divergente)")
            .with_technical(tech.as_str())
            .with_recommendation("Não prossiga automaticamente. Inspecione o arquivo e os logs antes de retomar."))
    }
}

/// A consistent history starts at Idle, ends at the current state, and
/// holds only edges of the transition graph.
pub proof fn law_history_follows_state(r: OperationRecord)
    requires
        history_consistent(r),
        r.transitions@.len() > 0,
    ensures
        r.transitions@.last().to == r.state,
        r.transitions@[0].from == OperationState::Idle,
        forall|k: int| 0 <= k < r.transitions@.len() ==> allowed((#[trigger] r.transitions@[k]).from, r.transitions@[k].to),
{
    reveal(edge_ok);
    assert forall|k: int| 0 <= k < r.transitions@.len() implies allowed((#[trigger] r.transitions@[k]).from, r.transitions@[k].to) by {
        assert(edge_ok(r.transitions@[k]));
    }
}

} // verus!
