//! Client side of the daemon protocol: read timeouts, the checks made on
//! every response, and the wait for a system daemon started through
//! polkit.

use vstd::prelude::*;

use crate::error::{error_code, ErrorDomain, SysforgeError};
use crate::ipc::protocol::WireError;
use crate::text::{clone_string, dec, push_dec, push_str};

verus! {

#[derive(Debug, Clone, Copy, PartialEq, Eq, Structural)]
pub enum IpcTimeout {
    Default,
    /// Privileged calls: pkcheck may open the polkit dialog and wait up to
    /// 180 s for the password, so the client waits longer than that.
    Long,
}

impl IpcTimeout {
    /// The read timeout, in seconds.
    pub fn duration_secs(self) -> (s: u64)
        ensures
            s == (match self {
                IpcTimeout::Default => 30u64,
                IpcTimeout::Long => 200u64,
            }),
    {
        match self {
            IpcTimeout::Default => 30,
            IpcTimeout::Long => 200,
        }
    }
}

/// The error when the daemon's socket refuses the connection (`detail`
/// is the system's reason).
pub fn connect_failed(socket: &str, detail: &str) -> (e: SysforgeError)
    ensures
        e.code@ == error_code(ErrorDomain::Io, 5),
        e.message@ == "Não foi possível conectar ao daemon sysforge-osd"@,
        e.technical@ == "socket "@ + socket@ + ": "@ + detail@,
        e.recommendation@ == "Verifique se o daemon está ativo (`sysforge daemon status`)."@,
{
    let mut tech = String::from_str("socket ");
    push_str(&mut tech, socket);
    push_str(&mut tech, ": ");
    push_str(&mut tech, detail);
    SysforgeError::new(ErrorDomain::Io, 5, "Não foi possível conectar ao daemon sysforge-osd")
        .with_technical(tech.as_str())
        .with_recommendation("Verifique se o daemon está ativo (`sysforge daemon status`).")
}

/// The error when no daemon answers on any of the sockets tried.
pub fn no_daemon_answering(tried: &Vec<String>) -> (e: SysforgeError)
    ensures
        e.code@ == error_code(ErrorDomain::Io, 5),
        e.message@ == "Nenhum daemon sysforge-osd está respondendo"@,
        e.technical@ == "sockets tentados: "@ + crate::text::join_with(tried@.map_values(|s: String| s@), ", "@),
        e.recommendation@
            == "`sysforge daemon system` sobe com privilégio via polkit (sua senha). `sysforge daemon run` = modo dev somente leitura. Sistema completo: bash scripts/install-daemon.sh."@,
{
    let mut tech = String::from_str("sockets tentados: ");
    let joined = crate::text::join_strings(tried, ", ");
    push_str(&mut tech, joined.as_str());
    SysforgeError::new(ErrorDomain::Io, 5, "Nenhum daemon sysforge-osd está respondendo")
        .with_technical(tech.as_str())
        .with_recommendation(
            "`sysforge daemon system` sobe com privilégio via polkit (sua senha). `sysforge daemon run` = modo dev somente leitura. Sistema completo: bash scripts/install-daemon.sh.",
        )
}

/// What the client reads of one response line.
#[derive(Debug, Clone)]
pub struct ResponseHead {
    /// The line was empty: the daemon closed the connection.
    pub closed: bool,
    pub id: u64,
    pub ok: bool,
    /// A `result` is present.
    pub has_result: bool,
    pub error: Option<WireError>,
}

/// The verdict on a response to request `expected_id`: `Ok` means its
/// `result` is the answer. A closed connection is `SF-IO-006`, another id
/// `SF-IO-007`, success without result `SF-IO-008`, failure without
/// detail `SF-IO-009`; a carried error comes back as it was sent.
pub fn response_outcome(expected_id: u64, head: &ResponseHead) -> (r: Result<(), SysforgeError>)
    ensures
        head.closed ==> (r matches Err(e) && e.code@ == error_code(ErrorDomain::Io, 6)
            && e.message@ == "O daemon encerrou a conexão sem responder"@),
        !head.closed && head.id != expected_id ==> (r matches Err(e) && e.code@ == error_code(ErrorDomain::Io, 7)
            && e.message@ == "Resposta fora de ordem do protocolo"@
            && e.technical@ == "esperado id "@ + dec(expected_id as nat) + ", recebido "@ + dec(head.id as nat)),
        !head.closed && head.id == expected_id && head.ok ==> (if head.has_result {
            r is Ok
        } else {
            r matches Err(e) && e.code@ == error_code(ErrorDomain::Io, 8) && e.message@ == "Resposta sem resultado"@
        }),
        !head.closed && head.id == expected_id && !head.ok ==> match head.error {
            Some(w) => r matches Err(e) && e.code@ == w.code@ && e.message@ == w.message@ && e.technical@ == w.technical@
                && e.recommendation@ == w.recommendation@,
            None => r matches Err(e) && e.code@ == error_code(ErrorDomain::Io, 9) && e.message@ == "Erro sem detalhes"@,
        },
{
    if head.closed {
        return Err(SysforgeError::new(ErrorDomain::Io, 6, "O daemon encerrou a conexão sem responder"));
    }
    if head.id != expected_id {
        let mut tech = String::from_str("esperado id ");
        push_dec(&mut tech, expected_id);
        push_str(&mut tech, ", recebido ");
        push_dec(&mut tech, head.id);
        return Err(SysforgeError::new(ErrorDomain::Io, 7, "Resposta fora de ordem do protocolo").with_technical(
            tech.as_str(),
        ));
    }
    if head.ok {
        if head.has_result {
            Ok(())
        } else {
            Err(SysforgeError::new(ErrorDomain::Io, 8, "Resposta sem resultado"))
        }
    } else {
        match &head.error {
            Some(w) => Err(SysforgeError {
                code: clone_string(&w.code),
                message: clone_string(&w.message),
                technical: clone_string(&w.technical),
                recommendation: clone_string(&w.recommendation),
            }),
            None => Err(SysforgeError::new(ErrorDomain::Io, 9, "Erro sem detalhes")),
        }
    }
}

/// What to do after one more second of waiting for the system daemon.
#[derive(Debug, Clone)]
pub enum WaitStep {
    /// The socket answers: the daemon is up.
    Ready,
    /// Keep waiting (the user may still be typing the password).
    KeepWaiting,
    /// The deadline passed.
    GiveUp(SysforgeError),
}

/// Decision after a connection attempt made `waited` seconds after
/// `pkexec` was started, with a deadline of `timeout` seconds.
pub fn wait_step(connected: bool, waited: u64, timeout: u64) -> (s: WaitStep)
    ensures
        connected ==> s is Ready,
        !connected && waited < timeout ==> s is KeepWaiting,
        !connected && waited >= timeout ==> (s matches WaitStep::GiveUp(e) && e.code@ == error_code(ErrorDomain::Auth, 7)
            && e.message@ == "O daemon system não apareceu no socket a tempo"@),
{
    if connected {
        WaitStep::Ready
    } else if waited < timeout {
        WaitStep::KeepWaiting
    } else {
        WaitStep::GiveUp(SysforgeError::new(ErrorDomain::Auth, 7, "O daemon system não apareceu no socket a tempo")
            .with_technical("Sem agente de diálogo polkit e sem TTY, a senha não pode ser pedida (Request dismissed)")
            .with_recommendation("Num TERMINAL seu, rode `yua daemon system` — o prompt de senha aparece ali (funciona sempre). No app, ative o agente: ~/.config/autostart (já instalado) + reiniciar a sessão."))
    }
}

} // verus!
