//! Decisions of the `sysforge-osd` daemon: its modes, the per-connection
//! authorization of each method, and the parsing it needs from `/proc`.
//!
//! Decision model:
//! - unimplemented DESTRUCTIVE methods → refused ALWAYS;
//! - PRIVILEGED methods → daemon in SYSTEM mode plus polkit (`pkcheck`),
//!   which asks the user for the password; the daemon only sees the verdict;
//! - read-only → dev mode: same uid only; system mode: allowed.
//! Fail-closed: polkit unavailable, silent or negative → refused.

use vstd::prelude::*;

use crate::error::{error_code, ErrorDomain, SysforgeError};
use crate::ipc::protocol::{destructive_names, is_destructive, is_privileged, privileged_names, WireError};
use crate::text::{
    chars_of, copy_range, dec, find_char, index_of, next_word, parse_u64, parse_u64_range,
    push_dec, push_str, split_once, words,
};

verus! {

#[derive(Debug, Clone, Copy, PartialEq, Eq, Structural)]
pub enum DaemonMode {
    Dev,
    System,
}

impl DaemonMode {
    pub fn label(self) -> (r: &'static str)
        ensures
            r@ == (match self {
                DaemonMode::Dev => "dev"@,
                DaemonMode::System => "system"@,
            }),
    {
        match self {
            DaemonMode::Dev => "dev",
            DaemonMode::System => "system",
        }
    }
}

/// Configuration of a running daemon.
#[derive(Debug, Clone)]
pub struct Config {
    pub mode: DaemonMode,
    /// Path of the Unix socket it serves.
    pub socket: String,
}

/// The kernel-reported identity of a connected client.
#[derive(Debug, Clone, Copy)]
pub struct Peer {
    pub pid: u32,
    pub uid: u32,
}

pub enum Decision {
    Allow,
    Deny(WireError),
}

/// Does authorizing this call need a polkit verdict?
pub open spec fn polkit_needed(mode: DaemonMode, method: Seq<char>) -> bool {
    !destructive_names().contains(method) && privileged_names().contains(method) && mode
        == DaemonMode::System
}

pub fn needs_polkit(mode: DaemonMode, method: &str) -> (b: bool)
    ensures
        b == polkit_needed(mode, method@),
{
    !is_destructive(method) && is_privileged(method) && mode == DaemonMode::System
}

/// What a refused destructive call is told in dev mode.
pub open spec fn destructive_dev_advice() -> Seq<char> {
    "Isto é por segurança. Operações destrutivas exigem o daemon em modo sistema (systemd/pkexec) e, mesmo lá, só existem quando implementadas com todos os guards."@
}

/// What a refused destructive call is told in system mode.
pub open spec fn destructive_system_advice() -> Seq<char> {
    "O deploy real chega com plano validado, snapshot e rollback. Nada destrutivo roda antes disso."@
}

/// What a privileged call refused in dev mode is told.
pub open spec fn privileged_dev_advice() -> Seq<char> {
    "Rode `sysforge daemon system` — o polkit pedirá sua senha na tela. O modo dev é somente leitura POR CONSTRUÇÃO."@
}

/// Authorization of one call. `polkit` is the outcome of `pkcheck` for the
/// caller (its exit status, or the error that prevented it); it is only
/// consulted when `needs_polkit` holds. `daemon_uid` is the uid the daemon
/// runs as.
pub fn authorize(
    mode: DaemonMode,
    peer_uid: u32,
    daemon_uid: u32,
    method: &str,
    polkit: Result<i32, SysforgeError>,
) -> (d: Decision)
    ensures
        destructive_names().contains(method@) ==> (d matches Decision::Deny(w) && if mode
            == DaemonMode::Dev {
            w.code@ == error_code(ErrorDomain::Auth, 2) && w.message@
                == "Operação destrutiva recusada: daemon em modo dev é somente leitura"@
                && w.recommendation@ == destructive_dev_advice()
        } else {
            w.code@ == error_code(ErrorDomain::Auth, 4) && w.message@
                == "Método destrutivo ainda não implementado (aguarda fase de deploy)"@
                && w.recommendation@ == destructive_system_advice()
        }),
        !destructive_names().contains(method@) && privileged_names().contains(method@) ==> (
        if mode == DaemonMode::Dev {
            d matches Decision::Deny(w) && w.code@ == error_code(ErrorDomain::Auth, 2)
                && w.message@ == "Método "@ + method@ + " exige o daemon em modo sistema"@
                && w.recommendation@ == privileged_dev_advice()
        } else {
            match polkit {
                Ok(code) => if code == 0 {
                    d is Allow
                } else {
                    d matches Decision::Deny(w) && w.code@ == error_code(ErrorDomain::Auth, 5)
                },
                Err(e) => d matches Decision::Deny(w) && w.code == e.code && w.message == e.message,
            }
        }),
        !destructive_names().contains(method@) && !privileged_names().contains(method@) ==> (
        if mode == DaemonMode::Dev && peer_uid != daemon_uid {
            d matches Decision::Deny(w) && w.code@ == error_code(ErrorDomain::Auth, 1)
        } else {
            d is Allow
        }),
{
    // Barrier 1 — unimplemented destructive: refused ALWAYS.
    if is_destructive(method) {
        let e = match mode {
            DaemonMode::Dev => SysforgeError::new(
                ErrorDomain::Auth,
                2,
                "Operação destrutiva recusada: daemon em modo dev é somente leitura",
            ).with_recommendation(
                "Isto é por segurança. Operações destrutivas exigem o daemon em modo sistema (systemd/pkexec) e, mesmo lá, só existem quando implementadas com todos os guards.",
            ),
            DaemonMode::System => SysforgeError::new(
                ErrorDomain::Auth,
                4,
                "Método destrutivo ainda não implementado (aguarda fase de deploy)",
            ).with_recommendation(
                "O deploy real chega com plano validado, snapshot e rollback. Nada destrutivo roda antes disso.",
            ),
        };
        return Decision::Deny(WireError::from(e));
    }
    // Barrier 2 — privilege by MODE. Dev never allows writes.
    if is_privileged(method) {
        if mode == DaemonMode::Dev {
            let mut msg = String::from_str("Método ");
            push_str(&mut msg, method);
            push_str(&mut msg, " exige o daemon em modo sistema");
            let e = SysforgeError::new(ErrorDomain::Auth, 2, msg.as_str()).with_recommendation(
                "Rode `sysforge daemon system` — o polkit pedirá sua senha na tela. O modo dev é somente leitura POR CONSTRUÇÃO.",
            );
            return Decision::Deny(WireError::from(e));
        }
        // System mode: polkit decides.
        match polkit {
            Ok(code) => {
                if code == 0 {
                    return Decision::Allow;
                }
                let mut tech = String::from_str("pkcheck saiu com ");
                crate::text::push_dec_i32(&mut tech, code);
                push_str(
                    &mut tech,
                    " — 1/3=negado · 2=cancelado · 4=erro interno · 5=ação desconhecida (a policy com.sysforge.osd está instalada? scripts/install-daemon.sh) · 127=sem como pedir a senha ao usuário (sem agente/diálogo neste contexto — rode de um terminal ou app na sessão gráfica)",
                );
                let e = SysforgeError::new(ErrorDomain::Auth, 5, "Autorização negada pelo polkit")
                    .with_technical(tech.as_str()).with_recommendation(
                    "Rode `bash scripts/install-daemon.sh` (instala a policy polkit) e execute o comando de um terminal/app na sua sessão gráfica.",
                );
                return Decision::Deny(WireError::from(e));
            },
            Err(e) => {
                return Decision::Deny(WireError::from(e));
            },
        }
    }
    // Published read-only: dev needs the same uid; system allows.
    if mode == DaemonMode::Dev && peer_uid != daemon_uid {
        let mut tech = String::from_str("peer uid ");
        push_dec(&mut tech, peer_uid as u64);
        push_str(&mut tech, " ≠ uid do daemon ");
        push_dec(&mut tech, daemon_uid as u64);
        let e = SysforgeError::new(
            ErrorDomain::Auth,
            1,
            "Conexão recusada: o daemon dev aceita apenas o usuário que o iniciou",
        ).with_technical(tech.as_str());
        return Decision::Deny(WireError::from(e));
    }
    Decision::Allow
}

/// The start time (field 22) in the text of `/proc/<pid>/stat`. The command
/// name (field 2) may hold spaces, so the fields are counted after the
/// first `)`.
pub open spec fn stat_start_time(raw: Seq<char>) -> Option<u64> {
    match split_once(raw, ')') {
        None => None,
        Some((_, after)) => {
            let w = words(after);
            if w.len() > 19 {
                parse_u64(w[19])
            } else {
                None
            }
        },
    }
}

/// The process start time that `pkcheck` needs, from the text of
/// `/proc/<pid>/stat`; malformed text is `SF-AUTH-011`.
pub fn proc_start_time(raw: &str) -> (r: Result<u64, SysforgeError>)
    ensures
        stat_start_time(raw@) matches Some(t) ==> r == Ok::<u64, SysforgeError>(t),
        stat_start_time(raw@) is None ==> (r matches Err(e) && e.code@ == error_code(ErrorDomain::Auth, 11)),
{
    let v = chars_of(raw);
    let close = find_char(v.as_slice(), 0, ')');
    proof {
        assert(v@.skip(0) =~= v@);
    }
    if close == v.len() {
        return Err(SysforgeError::new(ErrorDomain::Auth, 11, "Formato inesperado de /proc/<pid>/stat"));
    }
    let after = copy_range(v.as_slice(), close + 1, v.len());
    proof {
        assert(after@ =~= v@.skip(close + 1));
    }
    // the 20th word after the command name
    let mut pos: usize = 0;
    let mut n: usize = 0;
    let ghost a = after@;
    assert(a.skip(0) =~= a);
    assert(split_once(raw@, ')') == Some((raw@.take(close as int), a)));
    while n < 19
        invariant
            n <= 19,
            pos <= after.len(),
            a == after@,
            split_once(raw@, ')') == Some((raw@.take(close as int), a)),
            words(a).len() >= n && words(a).skip(n as int) == words(a.skip(pos as int)),
        decreases 19 - n,
    {
        match next_word(after.as_slice(), pos) {
            None => {
                assert(words(a.skip(pos as int)).len() == 0);
                assert(words(a).skip(n as int).len() == 0);
                assert(words(a).len() <= 19);
                return Err(SysforgeError::new(ErrorDomain::Auth, 11, "stat sem starttime"));
            },
            Some((_, b)) => {
                proof {
                    assert(words(a).skip(n as int).drop_first() =~= words(a).skip(n + 1));
                }
                pos = b;
                n += 1;
            },
        }
    }
    match next_word(after.as_slice(), pos) {
        None => {
            assert(words(a.skip(pos as int)).len() == 0);
            assert(words(a).skip(19).len() == 0);
            Err(SysforgeError::new(ErrorDomain::Auth, 11, "stat sem starttime"))
        },
        Some((x, y)) => {
            proof {
                assert(words(a)[19] == words(a).skip(19)[0]);
            }
            match parse_u64_range(after.as_slice(), x, y) {
                Some(t) => Ok(t),
                None => Err(SysforgeError::new(ErrorDomain::Auth, 11, "starttime não numérico")),
            }
        },
    }
}


/// polkit action of the privileged methods (password asked on screen,
/// remembered for a few minutes).
pub const POLKIT_ACTION: &'static str = "com.sysforge.osd.lowrisk";

/// `pkcheck --process <pid>,<start> --action-id <action>
/// --allow-user-interaction`: polkit asks the user on behalf of the caller
/// and answers with its exit status (0 = authorized).
pub fn pkcheck_spec(pid: u32, start: u64, action_id: &str) -> (spec: crate::executor::CommandSpec)
    ensures
        spec.program@ == "pkcheck"@,
        crate::executor::arg_views(spec.args@) == seq![
            "--process"@,
            dec(pid as nat) + ","@ + dec(start as nat),
            "--action-id"@,
            action_id@,
            "--allow-user-interaction"@,
        ],
        spec.timeout_secs == 180,
{
    let mut process = String::new();
    push_dec(&mut process, pid as u64);
    push_str(&mut process, ",");
    push_dec(&mut process, start);
    let spec = crate::executor::CommandSpec::new("pkcheck").arg("--process").arg(process.as_str()).arg(
        "--action-id",
    ).arg(action_id).arg("--allow-user-interaction").timeout(180);
    assert(crate::executor::arg_views(spec.args@) =~= seq![
        "--process"@,
        dec(pid as nat) + ","@ + dec(start as nat),
        "--action-id"@,
        action_id@,
        "--allow-user-interaction"@,
    ]);
    spec
}
} // verus!
