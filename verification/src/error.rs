//! Error system with stable, traceable codes (`SF-XXX-NNN`).
//!
//! Every error carries a stable code, a user-facing message, a technical
//! detail and a recommended action: the UI never shows a bare failure.

use vstd::prelude::*;

use crate::text::{opt_view, push_str, chars_of, dec3, dec_int, is_ws, is_ws_char, push_char, push_chars, push_dec3, push_dec_i32, string_from, trim, trim_chars};

verus! {

/// Error categories. Codes are stable and documented.
#[derive(Debug, Clone, Copy, PartialEq, Eq, Structural)]
pub enum ErrorDomain {
    Disk,
    Boot,
    Image,
    Net,
    Uefi,
    Windows,
    Linux,
    Dep,
    Auth,
    State,
    Io,
    NotSupported,
}

/// The code prefix of each domain.
pub open spec fn domain_prefix(d: ErrorDomain) -> Seq<char> {
    match d {
        ErrorDomain::Disk => "SF-DISK"@,
        ErrorDomain::Boot => "SF-BOOT"@,
        ErrorDomain::Image => "SF-IMAGE"@,
        ErrorDomain::Net => "SF-NET"@,
        ErrorDomain::Uefi => "SF-UEFI"@,
        ErrorDomain::Windows => "SF-WIN"@,
        ErrorDomain::Linux => "SF-LINUX"@,
        ErrorDomain::Dep => "SF-DEP"@,
        ErrorDomain::Auth => "SF-AUTH"@,
        ErrorDomain::State => "SF-STATE"@,
        ErrorDomain::Io => "SF-IO"@,
        ErrorDomain::NotSupported => "SF-NOTSUP"@,
    }
}

impl ErrorDomain {
    pub fn prefix(self) -> (r: &'static str)
        ensures
            r@ == domain_prefix(self),
    {
        match self {
            ErrorDomain::Disk => "SF-DISK",
            ErrorDomain::Boot => "SF-BOOT",
            ErrorDomain::Image => "SF-IMAGE",
            ErrorDomain::Net => "SF-NET",
            ErrorDomain::Uefi => "SF-UEFI",
            ErrorDomain::Windows => "SF-WIN",
            ErrorDomain::Linux => "SF-LINUX",
            ErrorDomain::Dep => "SF-DEP",
            ErrorDomain::Auth => "SF-AUTH",
            ErrorDomain::State => "SF-STATE",
            ErrorDomain::Io => "SF-IO",
            ErrorDomain::NotSupported => "SF-NOTSUP",
        }
    }
}

/// The stable code of error `num` of a domain: `"{prefix}-{num:03}"`.
pub open spec fn error_code(d: ErrorDomain, num: nat) -> Seq<char> {
    domain_prefix(d) + "-"@ + dec3(num)
}

/// Structured error.
#[derive(Debug, Clone, PartialEq, Eq)]
pub struct SysforgeError {
    /// Stable code, e.g. "SF-DISK-001".
    pub code: String,
    /// User-facing message (what happened).
    pub message: String,
    /// Technical detail (why it happened).
    pub technical: String,
    /// Recommended action (what to do).
    pub recommendation: String,
}

/// `format!("{:?}", s)` of a `str` with characters that Debug escapes.
pub uninterp spec fn str_debug(s: Seq<char>) -> Seq<char>;

/// Printable ASCII with no double quote and no backslash: text that Debug
/// writes as it is.
pub open spec fn debug_plain(s: Seq<char>) -> bool {
    forall|i: int| 0 <= i < s.len() ==> ' ' <= #[trigger] s[i] && s[i] <= '~' && s[i] != '"' && s[i] != '\\'
}

/// `format!("{:?}", s)` of a `str`: plain text between double quotes;
/// other text as Rust's escaping writes it (named, not restated).
pub open spec fn debug_text(s: Seq<char>) -> Seq<char> {
    if debug_plain(s) {
        seq!['"'] + s + seq!['"']
    } else {
        str_debug(s)
    }
}

/// Debug rendering of a `str` (`format!("{:?}", s)`): printable ASCII
/// without quotes or backslashes comes back between double quotes; the
/// escaping of other text is named.
#[verifier::external_body]
pub(crate) fn debug_str(s: &str) -> (r: String)
    ensures
        debug_plain(s@) ==> r@ == seq!['"'] + s@ + seq!['"'],
        !debug_plain(s@) ==> r@ == str_debug(s@),
{
    format!("{:?}", s)
}

/// `format!("{:?}", s)` of a `str` (see [`debug_text`]).
pub(crate) fn debug_of(s: &str) -> (r: String)
    ensures
        r@ == debug_text(s@),
{
    debug_str(s)
}

/// Does the argument need quoting for an unambiguous log line?
pub open spec fn needs_quoting(arg: Seq<char>) -> bool {
    arg.len() == 0 || exists|i: int| 0 <= i < arg.len() && (is_ws(#[trigger] arg[i]) || arg[i] == '"')
}

/// The log rendering of one command argument.
pub open spec fn escaped(arg: Seq<char>) -> Seq<char> {
    if needs_quoting(arg) {
        debug_text(arg)
    } else {
        arg
    }
}

/// Escapes an argument for display in a log line (no shell is involved;
/// this only makes the log unambiguous).
pub fn shell_escape(arg: &str) -> (r: String)
    ensures
        r@ == escaped(arg@),
{
    let v = chars_of(arg);
    let mut quote = v.len() == 0;
    let mut i: usize = 0;
    while i < v.len() && !quote
        invariant
            i <= v.len(),
            v@ == arg@,
            quote == (v.len() == 0 || exists|k: int| 0 <= k < i && (is_ws(#[trigger] v@[k]) || v@[k] == '"')),
        decreases v.len() - i,
    {
        if is_ws_char(v[i]) || v[i] == '"' {
            quote = true;
        }
        i += 1;
    }
    if quote {
        debug_of(arg)
    } else {
        string_from(v.as_slice())
    }
}

/// Arguments joined by single spaces, each escaped.
pub open spec fn joined_args(args: Seq<Seq<char>>) -> Seq<char>
    decreases args.len(),
{
    if args.len() == 0 {
        seq![]
    } else if args.len() == 1 {
        escaped(args[0])
    } else {
        joined_args(args.drop_last()) + " "@ + escaped(args.last())
    }
}

/// `format!("{:?}", exit)` of an exit status.
pub open spec fn exit_debug(exit: Option<i32>) -> Seq<char> {
    match exit {
        Some(c) => "Some("@ + dec_int(c as int) + ")"@,
        None => "None"@,
    }
}

/// The text of an error as shown to the user.
pub open spec fn rendered(e: SysforgeError) -> Seq<char> {
    "["@ + e.code@ + "] "@ + e.message@ + (if e.technical@.len() > 0 {
        "\n  detalhe: "@ + e.technical@
    } else {
        seq![]
    }) + (if e.recommendation@.len() > 0 {
        "\n  sugestão: "@ + e.recommendation@
    } else {
        seq![]
    })
}

/// Appends `format!("{:?}", exit)`.
pub fn push_exit_debug(s: &mut String, exit: Option<i32>)
    ensures
        final(s)@ == old(s)@ + exit_debug(exit),
{
    match exit {
        Some(c) => {
            push_str(s, "Some(");
            push_dec_i32(s, c);
            push_str(s, ")");
        },
        None => {
            push_str(s, "None");
        },
    }
}

/// Appends `format!("{:?}", o)` of an optional string.
pub fn push_opt_debug(s: &mut String, o: &Option<String>)
    ensures
        final(s)@ == old(s)@ + opt_debug(opt_view(*o)),
{
    match o {
        Some(t) => {
            push_str(s, "Some(");
            let d = debug_of(t.as_str());
            push_str(s, d.as_str());
            push_str(s, ")");
        },
        None => {
            push_str(s, "None");
        },
    }
}

/// `format!("{:?}", o)` of an optional string.
pub open spec fn opt_debug(o: Option<Seq<char>>) -> Seq<char> {
    match o {
        Some(t) => "Some("@ + debug_text(t) + ")"@,
        None => "None"@,
    }
}

impl SysforgeError {
    pub fn new(domain: ErrorDomain, num: u32, message: &str) -> (e: Self)
        ensures
            e.code@ == error_code(domain, num as nat),
            e.message@ == message@,
            e.technical@ == Seq::<char>::empty(),
            e.recommendation@ == Seq::<char>::empty(),
    {
        let mut code = String::new();
        push_str(&mut code, domain.prefix());
        push_char(&mut code, '-');
        push_dec3(&mut code, num);
        proof {
            reveal_strlit("-");
            assert(code@ =~= error_code(domain, num as nat));
        }
        SysforgeError {
            code,
            message: String::from_str(message),
            technical: String::new(),
            recommendation: String::new(),
        }
    }

    pub fn with_technical(self, tech: &str) -> (e: Self)
        ensures
            e == (SysforgeError { technical: e.technical, ..self }),
            e.technical@ == tech@,
    {
        SysforgeError { technical: String::from_str(tech), ..self }
    }

    pub fn with_recommendation(self, rec: &str) -> (e: Self)
        ensures
            e == (SysforgeError { recommendation: e.recommendation, ..self }),
            e.recommendation@ == rec@,
    {
        SysforgeError { recommendation: String::from_str(rec), ..self }
    }

    /// An I/O failure (`SF-IO-002`), from the system's description of it.
    pub fn io(detail: &str) -> (e: Self)
        ensures
            e.code@ == error_code(ErrorDomain::Io, 2),
            e.message@ == "Erro de E/S: "@ + detail@,
            e.technical@ == detail@,
            e.recommendation@ == "Verifique permissões de arquivos/diretórios e espaço em disco."@,
    {
        let mut message = String::from_str("Erro de E/S: ");
        push_str(&mut message, detail);
        SysforgeError::new(ErrorDomain::Io, 2, message.as_str()).with_technical(detail).with_recommendation(
            "Verifique permissões de arquivos/diretórios e espaço em disco.",
        )
    }

    /// A JSON text that could not be decoded (`SF-IO-003`), from the
    /// decoder's description of the problem.
    pub fn json(detail: &str) -> (e: Self)
        ensures
            e.code@ == error_code(ErrorDomain::Io, 3),
            e.message@ == "Falha ao processar JSON: "@ + detail@,
            e.technical@ == detail@,
            e.recommendation@
                == "Isto geralmente indica saída inesperada de uma ferramenta do sistema. Reporte com `sysforge logs`."@,
    {
        let mut message = String::from_str("Falha ao processar JSON: ");
        push_str(&mut message, detail);
        SysforgeError::new(ErrorDomain::Io, 3, message.as_str()).with_technical(detail).with_recommendation(
            "Isto geralmente indica saída inesperada de uma ferramenta do sistema. Reporte com `sysforge logs`.",
        )
    }

    /// Failure of an external command, with its captured output.
    pub fn command_failed(program: &str, args: &[String], exit: Option<i32>, stderr: &str) -> (e:
        Self)
        ensures
            e.code@ == error_code(ErrorDomain::Io, 1),
            e.message@ == "O comando `"@ + program@ + "` falhou"@,
            e.technical@ == "`"@ + program@ + " "@ + joined_args(args@.map_values(|a: String| a@))
                + "` terminou com status "@ + exit_debug(exit) + ". stderr: "@ + trim(stderr@),
            e.recommendation@
                == "Verifique se a ferramenta está instalada e se o usuário tem permissão. Consulte `sysforge doctor`."@,
    {
        let ghost argv = args@.map_values(|a: String| a@);
        let mut joined = String::new();
        let mut i: usize = 0;
        while i < args.len()
            invariant
                i <= args.len(),
                argv == args@.map_values(|a: String| a@),
                joined@ == joined_args(argv.take(i as int)),
            decreases args.len() - i,
        {
            if i > 0 {
                push_char(&mut joined, ' ');
            }
            let esc = shell_escape(args[i].as_str());
            push_str(&mut joined, esc.as_str());
            proof {
                reveal_strlit(" ");
                assert(argv.take(i + 1).drop_last() =~= argv.take(i as int));
                if i == 0 {
                    assert(joined@ =~= joined_args(argv.take(i + 1)));
                } else {
                    assert(joined@ =~= joined_args(argv.take(i + 1)));
                }
            }
            i += 1;
        }
        proof {
            assert(argv.take(args.len() as int) =~= argv);
        }
        let mut message = String::from_str("O comando `");
        push_str(&mut message, program);
        push_str(&mut message, "` falhou");
        let mut technical = String::from_str("`");
        push_str(&mut technical, program);
        push_str(&mut technical, " ");
        push_str(&mut technical, joined.as_str());
        push_str(&mut technical, "` terminou com status ");
        push_exit_debug(&mut technical, exit);
        push_str(&mut technical, ". stderr: ");
        let err_chars = chars_of(stderr);
        let trimmed = trim_chars(err_chars.as_slice());
        push_chars(&mut technical, trimmed.as_slice());
        let e = SysforgeError::new(ErrorDomain::Io, 1, message.as_str()).with_technical(
            technical.as_str(),
        ).with_recommendation(
            "Verifique se a ferramenta está instalada e se o usuário tem permissão. Consulte `sysforge doctor`.",
        );
        proof {
            assert(technical@ =~= "`"@ + program@ + " "@ + joined_args(argv) + "` terminou com status "@
                + exit_debug(exit) + ". stderr: "@ + trim(stderr@));
        }
        e
    }

    /// The text shown to the user: `[code] message`, then the technical
    /// detail and the recommendation on their own lines when present.
    pub fn to_string(&self) -> (r: String)
        ensures
            r@ == rendered(*self),
    {
        let mut s = String::from_str("[");
        push_str(&mut s, self.code.as_str());
        push_str(&mut s, "] ");
        push_str(&mut s, self.message.as_str());
        if self.technical.as_str().unicode_len() > 0 {
            push_str(&mut s, "\n  detalhe: ");
            push_str(&mut s, self.technical.as_str());
        }
        if self.recommendation.as_str().unicode_len() > 0 {
            push_str(&mut s, "\n  sugestão: ");
            push_str(&mut s, self.recommendation.as_str());
        }
        proof {
            assert(s@ =~= rendered(*self));
        }
        s
    }
}

} // verus!
