//! Terminal presentation: ANSI styles, status badges and box-drawing
//! tables, with a clean fallback (`on == false` gives plain text) for pipes
//! and NO_COLOR.

use vstd::prelude::*;

use colored::Colorize;

use crate::text::{chars_of, dec, push_char, push_dec, push_str, replace_all, str_eq};

verus! {

/// The escape that opens an ANSI select-graphic-rendition style.
pub open spec fn sgr(code: Seq<char>) -> Seq<char> {
    "\u{1b}["@ + code + "m"@
}

/// The escape that resets every style.
pub open spec fn sgr_reset() -> Seq<char> {
    "\u{1b}[0m"@
}

/// Text wrapped in a style and a reset, the style reopened after every
/// reset inside the text (so that nested styles stay in force).
pub open spec fn ansi(code: Seq<char>, s: Seq<char>) -> Seq<char> {
    sgr(code) + replace_all(s, sgr_reset(), sgr_reset() + sgr(code)) + sgr_reset()
}

/// What colored renders for a text: the text itself when it decides not to
/// colour (by environment or terminal, at run time), else the text in the
/// style's code (see [`ansi`]).
pub open spec fn rendered(r: Seq<char>, code: Seq<char>, s: Seq<char>) -> bool {
    r == s || r == ansi(code, s)
}

/// `Colorize::red` of colored, rendered with `to_string`: the text, or the
/// text in SGR code 31 (see [`rendered`]).
#[verifier::external_body]
fn style_red(s: &str) -> (r: String)
    ensures
        rendered(r@, "31"@, s@),
{
    s.red().to_string()
}

/// `Colorize::green` of colored, rendered with `to_string`: the text, or the
/// text in SGR code 32 (see [`rendered`]).
#[verifier::external_body]
fn style_green(s: &str) -> (r: String)
    ensures
        rendered(r@, "32"@, s@),
{
    s.green().to_string()
}

/// `Colorize::yellow` of colored, rendered with `to_string`: the text, or the
/// text in SGR code 33 (see [`rendered`]).
#[verifier::external_body]
fn style_yellow(s: &str) -> (r: String)
    ensures
        rendered(r@, "33"@, s@),
{
    s.yellow().to_string()
}

/// `Colorize::blue` of colored, rendered with `to_string`: the text, or the
/// text in SGR code 34 (see [`rendered`]).
#[verifier::external_body]
fn style_blue(s: &str) -> (r: String)
    ensures
        rendered(r@, "34"@, s@),
{
    s.blue().to_string()
}

/// `Colorize::magenta` of colored, rendered with `to_string`: the text, or the
/// text in SGR code 35 (see [`rendered`]).
#[verifier::external_body]
fn style_magenta(s: &str) -> (r: String)
    ensures
        rendered(r@, "35"@, s@),
{
    s.magenta().to_string()
}

/// `Colorize::cyan` of colored, rendered with `to_string`: the text, or the
/// text in SGR code 36 (see [`rendered`]).
#[verifier::external_body]
fn style_cyan(s: &str) -> (r: String)
    ensures
        rendered(r@, "36"@, s@),
{
    s.cyan().to_string()
}

/// `Colorize::bold` of colored, rendered with `to_string`: the text, or the
/// text in SGR code 1 (see [`rendered`]).
#[verifier::external_body]
fn style_bold(s: &str) -> (r: String)
    ensures
        rendered(r@, "1"@, s@),
{
    s.bold().to_string()
}

/// `Colorize::dimmed` of colored, rendered with `to_string`: the text, or the
/// text in SGR code 2 (see [`rendered`]).
#[verifier::external_body]
fn style_dim(s: &str) -> (r: String)
    ensures
        rendered(r@, "2"@, s@),
{
    s.dimmed().to_string()
}

/// The style names `paint` knows.
pub open spec fn known_style(color: Seq<char>) -> bool {
    color == "red"@ || color == "green"@ || color == "yellow"@ || color == "blue"@ || color == "magenta"@
        || color == "cyan"@ || color == "bold"@ || color == "dim"@
}

/// The SGR code of a style `paint` knows.
pub open spec fn style_code(color: Seq<char>) -> Seq<char> {
    if color == "red"@ {
        "31"@
    } else if color == "green"@ {
        "32"@
    } else if color == "yellow"@ {
        "33"@
    } else if color == "blue"@ {
        "34"@
    } else if color == "magenta"@ {
        "35"@
    } else if color == "cyan"@ {
        "36"@
    } else if color == "bold"@ {
        "1"@
    } else {
        "2"@
    }
}

/// A piece of terminal text: the text, and the style it is painted in
/// (`None`: written as it is).
pub type Piece = (Seq<char>, Option<Seq<char>>);

/// `r` is how `paint` may render the piece: the text itself with styles
/// off, with no style or with an unknown one; else as colored renders it.
pub open spec fn painted(r: Seq<char>, p: Piece, on: bool) -> bool {
    match p.1 {
        Some(c) => if on && known_style(c) {
            rendered(r, style_code(c), p.0)
        } else {
            r == p.0
        },
        None => r == p.0,
    }
}

/// `r` is the pieces one after the other, each as `paint` may render it.
pub open spec fn shows(r: Seq<char>, ps: Seq<Piece>, on: bool) -> bool
    decreases ps.len(),
{
    if ps.len() == 0 {
        r.len() == 0
    } else {
        exists|k: int| 0 <= k <= r.len() && shows(#[trigger] r.take(k), ps.drop_last(), on) && painted(
            r.skip(k),
            ps.last(),
            on,
        )
    }
}

/// The pieces' texts one after the other: what they show with styles off.
pub open spec fn plain_text(ps: Seq<Piece>) -> Seq<char>
    decreases ps.len(),
{
    if ps.len() == 0 {
        Seq::empty()
    } else {
        plain_text(ps.drop_last()) + ps.last().0
    }
}

pub proof fn lemma_shows_push(r: Seq<char>, ps: Seq<Piece>, on: bool, t: Seq<char>, p: Piece)
    requires
        shows(r, ps, on),
        painted(t, p, on),
    ensures
        shows(r + t, ps.push(p), on),
{
    let k = r.len() as int;
    assert((r + t).take(k) =~= r);
    assert((r + t).skip(k) =~= t);
    assert(ps.push(p).drop_last() =~= ps);
}

pub proof fn lemma_shows_one(r: Seq<char>, p: Piece, on: bool)
    requires
        painted(r, p, on),
    ensures
        shows(r, seq![p], on),
{
    let e: Seq<Piece> = seq![];
    lemma_shows_push(Seq::<char>::empty(), e, on, r, p);
    assert(Seq::<char>::empty() + r =~= r);
    assert(e.push(p) =~= seq![p]);
}

/// With styles off, pieces show exactly their plain text.
pub proof fn lemma_shows_plain(r: Seq<char>, ps: Seq<Piece>)
    ensures
        shows(r, ps, false) <==> r == plain_text(ps),
    decreases ps.len(),
{
    if ps.len() > 0 {
        let q = ps.drop_last();
        if shows(r, ps, false) {
            let k = choose|k: int| 0 <= k <= r.len() && shows(#[trigger] r.take(k), q, false) && painted(
                r.skip(k),
                ps.last(),
                false,
            );
            lemma_shows_plain(r.take(k), q);
            assert(r =~= r.take(k) + r.skip(k));
        }
        if r == plain_text(ps) {
            let k = plain_text(q).len() as int;
            lemma_shows_plain(plain_text(q), q);
            assert(r.take(k) =~= plain_text(q));
            assert(r.skip(k) =~= ps.last().0);
        }
    } else {
        if r.len() == 0 {
            assert(r =~= Seq::<char>::empty());
        }
    }
}

/// Appends a piece rendered as `t`.
pub(crate) fn push_piece(out: &mut String, t: &str, ps: Ghost<Seq<Piece>>, p: Ghost<Piece>, on: bool)
    requires
        shows(old(out)@, ps@, on),
        painted(t@, p@, on),
    ensures
        final(out)@ == old(out)@ + t@,
        shows(final(out)@, ps@.push(p@), on),
{
    proof {
        lemma_shows_push(old(out)@, ps@, on, t@, p@);
    }
    push_str(out, t);
}

/// `s` in a style; plain text when styles are off or the style is unknown.
/// With styles on, a known style gives the text or the text in the style's
/// code (colored decides at run time).
pub fn paint(s: &str, color: &str, on: bool) -> (r: String)
    ensures
        !on || !known_style(color@) ==> r@ == s@,
        on && known_style(color@) ==> rendered(r@, style_code(color@), s@),
        painted(r@, (s@, Some(color@)), on),
{
    proof {
        reveal_strlit("red");
        reveal_strlit("green");
        reveal_strlit("yellow");
        reveal_strlit("blue");
        reveal_strlit("magenta");
        reveal_strlit("cyan");
        reveal_strlit("bold");
        reveal_strlit("dim");
    }
    if !on {
        return String::from_str(s);
    }
    if str_eq(color, "red") {
        style_red(s)
    } else if str_eq(color, "green") {
        style_green(s)
    } else if str_eq(color, "yellow") {
        style_yellow(s)
    } else if str_eq(color, "blue") {
        style_blue(s)
    } else if str_eq(color, "magenta") {
        style_magenta(s)
    } else if str_eq(color, "cyan") {
        style_cyan(s)
    } else if str_eq(color, "bold") {
        style_bold(s)
    } else if str_eq(color, "dim") {
        style_dim(s)
    } else {
        String::from_str(s)
    }
}

pub fn tag_ok(on: bool) -> (r: String)
    ensures
        !on ==> r@ == "✔"@,
        painted(r@, ("✔"@, Some("green"@)), on),
{
    paint("✔", "green", on)
}

pub fn tag_warn(on: bool) -> (r: String)
    ensures
        !on ==> r@ == "⚠"@,
        painted(r@, ("⚠"@, Some("yellow"@)), on),
{
    paint("⚠", "yellow", on)
}

pub fn tag_fail(on: bool) -> (r: String)
    ensures
        !on ==> r@ == "✖"@,
        painted(r@, ("✖"@, Some("red"@)), on),
{
    paint("✖", "red", on)
}

pub fn tag_info(on: bool) -> (r: String)
    ensures
        !on ==> r@ == "●"@,
        painted(r@, ("●"@, Some("cyan"@)), on),
{
    paint("●", "cyan", on)
}

// ------------------------------------------------------------ sizes as f64

/// 2^53: every integer below it is exactly an `f64`.
pub const F64_EXACT_LIMIT: u64 = 9007199254740992;

/// The spacing of `f64` values around `b`: 1 below 2^53, doubling with each
/// further bit of `b`.
pub open spec fn f64_ulp(b: nat) -> nat
    decreases b,
{
    if b < F64_EXACT_LIMIT {
        1
    } else {
        2 * f64_ulp(b / 2)
    }
}

/// `n / d` rounded to the nearest integer, ties to even.
pub open spec fn round_half_even(n: nat, d: nat) -> nat
    recommends
        d > 0,
{
    let q = n / d;
    let r = n % d;
    if 2 * r > d || (2 * r == d && q % 2 == 1) {
        q + 1
    } else {
        q
    }
}

/// The integer that `b as f64` holds: `b` rounded to a multiple of its
/// `f64` spacing, ties to even (IEEE 754 round-to-nearest).
pub open spec fn f64_value(b: nat) -> nat {
    round_half_even(b, f64_ulp(b)) * f64_ulp(b)
}

proof fn lemma_ulp_pos(b: nat)
    ensures
        f64_ulp(b) >= 1,
    decreases b,
{
    if b >= F64_EXACT_LIMIT {
        lemma_ulp_pos(b / 2);
    }
}

pub(crate) fn round_half_even_of(n: u128, d: u128) -> (r: u128)
    requires
        d > 0,
        n < u128::MAX,
    ensures
        r == round_half_even(n as nat, d as nat),
        r <= n / d + 1,
{
    let q = n / d;
    let m = n % d;
    if m > d - m || (m == d - m && q % 2 == 1) {
        proof {
            vstd::arithmetic::div_mod::lemma_div_is_ordered_by_denominator(n as int, 1, d as int);
        }
        q + 1
    } else {
        q
    }
}

/// `b as f64`, as the integer it holds (see [`f64_value`]).
pub(crate) fn f64_value_of(b: u64) -> (v: u128)
    ensures
        v == f64_value(b as nat),
        v <= 2 * b + 1,
{
    let mut p: u128 = 1;
    let mut cur: u64 = b;
    while cur >= F64_EXACT_LIMIT
        invariant
            1 <= p <= b || (p == 1),
            cur == b as nat / p as nat,
            f64_ulp(b as nat) == p * f64_ulp(cur as nat),
        decreases cur,
    {
        proof {
            assert(p <= b) by (nonlinear_arith)
                requires
                    cur == b as nat / p as nat,
                    cur >= 1,
                    p >= 1,
            ;
            vstd::arithmetic::div_mod::lemma_div_denominator(b as int, p as int, 2);
            assert(f64_ulp(cur as nat) == 2 * f64_ulp((cur / 2) as nat));
            assert(p * (2 * f64_ulp((cur / 2) as nat)) == (p * 2) * f64_ulp((cur / 2) as nat))
                by (nonlinear_arith);
            assert(p * 2 <= b) by (nonlinear_arith)
                requires
                    cur == b as nat / p as nat,
                    cur >= 2,
                    p >= 1,
            ;
        }
        cur = cur / 2;
        p = p * 2;
    }
    assert(f64_ulp(b as nat) == p) by {
        let u = f64_ulp(cur as nat);
        assert(u == 1);
        assert(p * u == p) by (nonlinear_arith)
            requires
                u == 1,
        ;
    }
    let wide: u128 = b as u128;
    let r = round_half_even_of(wide, p);
    proof {
        let q = b as int / p as int;
        vstd::arithmetic::div_mod::lemma_fundamental_div_mod(b as int, p as int);
        assert(b as int % p as int >= 0);
        assert(r * p <= 2 * b + 1) by (nonlinear_arith)
            requires
                r <= q + 1,
                p * q <= b,
                p >= 1,
                p <= b || p == 1,
                q >= 0,
        ;
    }
    r * p
}

/// The binary unit `fmt_bytes` settles on for the value `x`: divide by
/// 1024 while the value is at least 1024, up to PiB.
pub open spec fn unit_index(x: nat) -> nat {
    if x < 1024 {
        0
    } else if x < 1048576 {
        1
    } else if x < 1073741824 {
        2
    } else if x < 1099511627776 {
        3
    } else if x < 1125899906842624 {
        4
    } else {
        5
    }
}

/// `1024^i` for the unit `i`.
pub open spec fn unit_scale(i: nat) -> nat {
    if i == 0 {
        1
    } else if i == 1 {
        1024
    } else if i == 2 {
        1048576
    } else if i == 3 {
        1073741824
    } else if i == 4 {
        1099511627776
    } else {
        1125899906842624
    }
}

pub open spec fn unit_name(i: nat) -> Seq<char> {
    if i == 0 {
        "B"@
    } else if i == 1 {
        "KiB"@
    } else if i == 2 {
        "MiB"@
    } else if i == 3 {
        "GiB"@
    } else if i == 4 {
        "TiB"@
    } else {
        "PiB"@
    }
}

/// `x / d` printed as `{:.0}` from 100 up, else as `{:.1}` with a decimal
/// comma; both round half to even, as the float formatter does.
pub open spec fn scaled_text(x: nat, d: nat) -> Seq<char> {
    if x >= 100 * d {
        dec(round_half_even(x, d))
    } else {
        let t = round_half_even(10 * x, d);
        dec(t / 10) + ","@ + dec(t % 10)
    }
}

/// Human size in binary units: `"0 B"`, `"512 B"`, `"1,5 KiB"`, `"931 GiB"`.
pub open spec fn fmt_bytes_text(b: nat) -> Seq<char> {
    if b == 0 {
        "0 B"@
    } else {
        let x = f64_value(b);
        scaled_text(x, unit_scale(unit_index(x))) + " "@ + unit_name(unit_index(x))
    }
}

/// A byte count in binary units with one decimal below 100 (decimal comma).
/// The value is scaled as the `f64` that `b` converts to, so sizes beyond
/// 2^53 round as that conversion does.
pub fn fmt_bytes(b: u64) -> (s: String)
    ensures
        s@ == fmt_bytes_text(b as nat),
{
    if b == 0 {
        return String::from_str("0 B");
    }
    let x = f64_value_of(b);
    let (d, unit): (u128, &str) = if x < 1024 {
        (1, "B")
    } else if x < 1048576 {
        (1024, "KiB")
    } else if x < 1073741824 {
        (1048576, "MiB")
    } else if x < 1099511627776 {
        (1073741824, "GiB")
    } else if x < 1125899906842624 {
        (1099511627776, "TiB")
    } else {
        (1125899906842624, "PiB")
    };
    let ghost i = unit_index(x as nat);
    assert(d == unit_scale(i) && unit@ == unit_name(i));
    let mut s = String::new();
    if x >= 100 * d {
        let t = round_half_even_of(x, d);
        proof {
            if d >= 1024 {
                vstd::arithmetic::div_mod::lemma_div_is_ordered_by_denominator(x as int, 1024, d as int);
            }
        }
        push_dec(&mut s, t as u64);
        assert(s@ == scaled_text(x as nat, d as nat));
    } else {
        let t = round_half_even_of(10 * x, d);
        proof {
            let q = (10 * x) as int / d as int;
            vstd::arithmetic::div_mod::lemma_fundamental_div_mod((10 * x) as int, d as int);
            assert((10 * x) as int % d as int >= 0);
            assert(q < 1000) by (nonlinear_arith)
                requires
                    d * q + (10 * x) as int % d as int == 10 * x,
                    (10 * x) as int % d as int >= 0,
                    10 * x < 1000 * d,
                    d > 0,
            ;
        }
        push_dec(&mut s, (t / 10) as u64);
        push_char(&mut s, ',');
        push_dec(&mut s, (t % 10) as u64);
        assert(s@ =~= scaled_text(x as nat, d as nat)) by {
            reveal_strlit(",");
        }
    }
    let ghost num = s@;
    push_char(&mut s, ' ');
    push_str(&mut s, unit);
    assert(s@ =~= num + " "@ + unit@) by {
        reveal_strlit(" ");
    }
    s
}

// ------------------------------------------------------------ uptime, bars, gradient

/// `"{d}d {h}h"` from a day up, `"{h}h {m}min"` from an hour, else `"{m}min"`.
pub open spec fn fmt_uptime_text(secs: nat) -> Seq<char> {
    let h = secs / 3600;
    let m = (secs % 3600) / 60;
    if h >= 24 {
        dec(h / 24) + "d "@ + dec(h % 24) + "h"@
    } else if h > 0 {
        dec(h) + "h "@ + dec(m) + "min"@
    } else {
        dec(m) + "min"@
    }
}

/// Uptime in whole seconds, in days and hours, hours and minutes, or
/// minutes.
pub fn fmt_uptime(secs: u64) -> (r: String)
    ensures
        r@ == fmt_uptime_text(secs as nat),
{
    let h = secs / 3600;
    let m = (secs % 3600) / 60;
    let mut r = String::new();
    if h >= 24 {
        push_dec(&mut r, h / 24);
        push_str(&mut r, "d ");
        push_dec(&mut r, h % 24);
        push_str(&mut r, "h");
    } else if h > 0 {
        push_dec(&mut r, h);
        push_str(&mut r, "h ");
        push_dec(&mut r, m);
        push_str(&mut r, "min");
    } else {
        push_dec(&mut r, m);
        push_str(&mut r, "min");
    }
    r
}

/// The body of a bar: `filled` full cells, then empty ones up to `width`.
pub open spec fn bar_cells(filled: nat, width: nat) -> Seq<char> {
    repeat('█', filled) + repeat('░', (width - filled) as nat)
}

/// A bar `[█████░░░]` of `width` cells with `filled` of them full, the
/// cells painted in `col`.
pub fn bar(filled: usize, width: usize, col: &str, color: bool) -> (r: String)
    requires
        filled <= width,
    ensures
        !color || !known_style(col@) ==> r@ == seq!['['] + bar_cells(filled as nat, width as nat) + seq![']'],
        shows(r@, seq![(seq!['['], None), (bar_cells(filled as nat, width as nat), Some(col@)), (seq![']'], None)], color),
{
    let mut cells = String::new();
    push_repeat(&mut cells, '█', filled);
    push_repeat(&mut cells, '░', width - filled);
    let shown = paint(cells.as_str(), col, color);
    let mut r = String::new();
    push_char(&mut r, '[');
    push_str(&mut r, shown.as_str());
    push_char(&mut r, ']');
    proof {
        let cv = bar_cells(filled as nat, width as nat);
        if !color || !known_style(col@) {
            assert(r@ =~= seq!['['] + cv + seq![']']);
        }
        let e: Seq<Piece> = seq![];
        assert(shows(Seq::<char>::empty(), e, color));
        lemma_shows_push(Seq::<char>::empty(), e, color, seq!['['], (seq!['['], None));
        assert(Seq::<char>::empty() + seq!['['] =~= seq!['[']);
        lemma_shows_push(seq!['['], e.push((seq!['['], None)), color, shown@, (cv, Some(col@)));
        lemma_shows_push(seq!['['] + shown@, e.push((seq!['['], None)).push((cv, Some(col@))), color, seq![']'], (seq![']'], None));
        assert(r@ =~= seq!['['] + shown@ + seq![']']);
        assert(e.push((seq!['['], None)).push((cv, Some(col@))).push((seq![']'], None)) =~= seq![(seq!['['], None), (cv, Some(col@)), (seq![']'], None)]);
    }
    r
}

/// One character in a 24-bit foreground colour, reset after it.
pub open spec fn truecolor_char(rgb: (u8, u8, u8), c: char) -> Seq<char> {
    "\x1b[38;2;"@ + dec(rgb.0 as nat) + ";"@ + dec(rgb.1 as nat) + ";"@ + dec(rgb.2 as nat) + "m"@
        + seq![c] + "\x1b[0m"@
}

/// Each character of `cs` in the colour of the same index in `rgb`.
pub open spec fn gradient_text(cs: Seq<char>, rgb: Seq<(u8, u8, u8)>) -> Seq<char>
    decreases cs.len(),
{
    if cs.len() == 0 {
        Seq::empty()
    } else {
        gradient_text(cs.drop_last(), rgb) + truecolor_char(rgb[cs.len() - 1], cs.last())
    }
}

fn push_truecolor(s: &mut String, rgb: (u8, u8, u8), c: char)
    ensures
        final(s)@ == old(s)@ + truecolor_char(rgb, c),
{
    let (red, green, blue) = rgb;
    push_str(s, "\x1b[38;2;");
    push_dec(s, red as u64);
    push_str(s, ";");
    push_dec(s, green as u64);
    push_str(s, ";");
    push_dec(s, blue as u64);
    push_str(s, "m");
    push_char(s, c);
    push_str(s, "\x1b[0m");
    assert(s@ =~= old(s)@ + truecolor_char(rgb, c));
}

/// `text` with one truecolor colour per character (`rgb[i]` for the
/// character at `i`); plain `text` when styles are off.
pub fn gradient_line(text: &str, on: bool, rgb: &Vec<(u8, u8, u8)>) -> (r: String)
    requires
        on ==> rgb@.len() == text@.len(),
    ensures
        !on ==> r@ == text@,
        on ==> r@ == gradient_text(text@, rgb@),
{
    if !on {
        return String::from_str(text);
    }
    let cs = chars_of(text);
    let mut r = String::new();
    let mut i: usize = 0;
    while i < cs.len()
        invariant
            i <= cs.len() == rgb@.len(),
            cs@ == text@,
            r@ == gradient_text(cs@.take(i as int), rgb@),
        decreases cs.len() - i,
    {
        push_truecolor(&mut r, rgb[i], cs[i]);
        proof {
            let t = cs@.take(i + 1);
            assert(t.drop_last() =~= cs@.take(i as int));
        }
        i += 1;
    }
    proof {
        assert(cs@.take(cs@.len() as int) =~= cs@);
    }
    r
}

// ------------------------------------------------------------ tables

/// `n` copies of `c`.
pub open spec fn repeat(c: char, n: nat) -> Seq<char> {
    Seq::new(n, |_i: int| c)
}

/// Width of column `i` over the first `k` rows, starting from `w`.
pub open spec fn col_width(w: nat, rows: Seq<Seq<Seq<char>>>, i: int, k: nat) -> nat
    decreases k,
{
    if k == 0 {
        w
    } else {
        let prev = col_width(w, rows, i, (k - 1) as nat);
        let r = rows[k - 1];
        if 0 <= i < r.len() && r[i].len() > prev {
            r[i].len()
        } else {
            prev
        }
    }
}

/// Column widths: the widest header or cell of each column, in characters.
pub open spec fn col_widths(headers: Seq<Seq<char>>, rows: Seq<Seq<Seq<char>>>) -> Seq<nat> {
    Seq::new(headers.len(), |i: int| col_width(headers[i].len(), rows, i, rows.len()))
}

/// The columns of a rule up to `k`: `─` over each width plus two, then
/// `m` between columns and `r` after the last.
pub open spec fn rule_cols(w: Seq<nat>, k: nat, m: char, r: char) -> Seq<char>
    decreases k,
{
    if k == 0 {
        seq![]
    } else {
        rule_cols(w, (k - 1) as nat, m, r) + repeat('─', w[k - 1] + 2) + seq![if k == w.len() { r } else { m }]
    }
}

/// A horizontal rule with corners `l` / `r` and joints `m`.
pub open spec fn rule_text(w: Seq<nat>, l: char, m: char, r: char) -> Seq<char> {
    seq![l] + rule_cols(w, w.len(), m, r)
}

/// Padding of cell `i`: what its column is wider than the cell (0 for a
/// cell beyond the columns).
pub open spec fn pad_of(w: Seq<nat>, cells: Seq<Seq<char>>, i: int) -> nat {
    let cw: nat = if 0 <= i < w.len() { w[i] } else { 0 };
    if cw > cells[i].len() { (cw - cells[i].len()) as nat } else { 0 }
}

/// The cells of a row up to `k`.
pub open spec fn row_cells(w: Seq<nat>, cells: Seq<Seq<char>>, k: nat) -> Seq<char>
    decreases k,
{
    if k == 0 {
        seq![]
    } else {
        row_cells(w, cells, (k - 1) as nat) + seq![' '] + cells[k - 1] + repeat(' ', pad_of(w, cells, k - 1) + 1)
            + seq!['│']
    }
}

/// One table row: `│ cell │ cell │`, each cell padded to its column.
pub open spec fn row_text(w: Seq<nat>, cells: Seq<Seq<char>>) -> Seq<char> {
    seq!['│'] + row_cells(w, cells, cells.len())
}

/// The data rows up to `k`, each followed by a newline and, but for the
/// last row, a separating rule.
pub open spec fn body_text(w: Seq<nat>, rows: Seq<Seq<Seq<char>>>, k: nat) -> Seq<char>
    decreases k,
{
    if k == 0 {
        seq![]
    } else {
        body_text(w, rows, (k - 1) as nat) + row_text(w, rows[k - 1]) + seq!['\n'] + (if k < rows.len() {
            rule_text(w, '├', '┼', '┤') + seq!['\n']
        } else {
            seq![]
        })
    }
}

/// The whole plain table.
pub open spec fn table_text(headers: Seq<Seq<char>>, rows: Seq<Seq<Seq<char>>>) -> Seq<char> {
    let w = col_widths(headers, rows);
    rule_text(w, '┌', '┬', '┐') + seq!['\n'] + row_text(w, headers) + seq!['\n'] + rule_text(w, '├', '┼', '┤')
        + seq!['\n'] + body_text(w, rows, rows.len()) + rule_text(w, '└', '┴', '┘')
}

pub open spec fn headers_view(h: Seq<&str>) -> Seq<Seq<char>> {
    h.map_values(|x: &str| x@)
}

pub open spec fn rows_view(r: Seq<Vec<String>>) -> Seq<Seq<Seq<char>>> {
    r.map_values(|row: Vec<String>| row@.map_values(|c: String| c@))
}

fn push_repeat(s: &mut String, c: char, n: usize)
    ensures
        final(s)@ == old(s)@ + repeat(c, n as nat),
{
    let mut i: usize = 0;
    while i < n
        invariant
            i <= n,
            s@ == old(s)@ + repeat(c, i as nat),
        decreases n - i,
    {
        push_char(s, c);
        i += 1;
        assert(s@ =~= old(s)@ + repeat(c, i as nat));
    }
}

fn widths_of(headers: &[&str], rows: &[Vec<String>]) -> (w: Vec<usize>)
    ensures
        w@.map_values(|x: usize| x as nat) == col_widths(headers_view(headers@), rows_view(rows@)),
{
    let ghost hv = headers_view(headers@);
    let ghost rv = rows_view(rows@);
    let n = headers.len();
    let mut w: Vec<usize> = Vec::new();
    let mut i: usize = 0;
    while i < n
        invariant
            i <= n,
            n == headers@.len(),
            hv == headers_view(headers@),
            w@.len() == i,
            forall|j: int| 0 <= j < i ==> (#[trigger] w@[j]) as nat == hv[j].len(),
        decreases n - i,
    {
        w.push(headers[i].unicode_len());
        proof {
            assert(hv[i as int] == headers@[i as int]@);
        }
        i += 1;
    }
    let mut k: usize = 0;
    while k < rows.len()
        invariant
            k <= rows.len(),
            n == headers@.len(),
            hv == headers_view(headers@),
            rv == rows_view(rows@),
            w@.len() == n,
            forall|j: int| 0 <= j < n ==> (#[trigger] w@[j]) as nat == col_width(hv[j].len(), rv, j, k as nat),
        decreases rows.len() - k,
    {
        let r = &rows[k];
        proof {
            assert(rv[k as int] == r@.map_values(|c: String| c@));
        }
        let mut j: usize = 0;
        while j < r.len()
            invariant
                j <= r.len(),
                k < rows.len(),
                r == &rows@[k as int],
                rv[k as int] == r@.map_values(|c: String| c@),
                n == headers@.len(),
                hv == headers_view(headers@),
                rv == rows_view(rows@),
                w@.len() == n,
                forall|x: int| 0 <= x < n && x < j ==> (#[trigger] w@[x]) as nat == col_width(hv[x].len(), rv, x, (k + 1) as nat),
                forall|x: int| 0 <= x < n && x >= j ==> (#[trigger] w@[x]) as nat == col_width(hv[x].len(), rv, x, k as nat),
            decreases r.len() - j,
        {
            if j < n {
                let len = r[j].unicode_len();
                proof {
                    assert(rv[k as int][j as int] == r@[j as int]@);
                }
                if len > w[j] {
                    w.set(j, len);
                }
            }
            j += 1;
        }
        proof {
            assert forall|x: int| 0 <= x < n implies (#[trigger] w@[x]) as nat == col_width(hv[x].len(), rv, x, (k + 1) as nat) by {
                if x >= r.len() {
                    assert(col_width(hv[x].len(), rv, x, (k + 1) as nat) == col_width(hv[x].len(), rv, x, k as nat));
                }
            }
        }
        k += 1;
    }
    proof {
        assert(w@.map_values(|x: usize| x as nat) =~= col_widths(hv, rv));
    }
    w
}

fn rule_line(w: &Vec<usize>, l: char, m: char, r: char) -> (s: String)
    ensures
        s@ == rule_text(w@.map_values(|x: usize| x as nat), l, m, r),
{
    let ghost wv = w@.map_values(|x: usize| x as nat);
    let mut s = String::new();
    push_char(&mut s, l);
    let mut i: usize = 0;
    while i < w.len()
        invariant
            i <= w.len(),
            wv == w@.map_values(|x: usize| x as nat),
            s@ == seq![l] + rule_cols(wv, i as nat, m, r),
        decreases w.len() - i,
    {
        if w[i] <= usize::MAX - 2 {
            push_repeat(&mut s, '─', w[i] + 2);
        } else {
            push_repeat(&mut s, '─', w[i]);
            push_repeat(&mut s, '─', 2);
            proof {
                assert(repeat('─', w[i as int] as nat) + repeat('─', 2) =~= repeat('─', (w[i as int] + 2) as nat));
            }
        }
        push_char(&mut s, if i + 1 == w.len() { r } else { m });
        proof {
            assert(wv[i as int] == w@[i as int] as nat);
            assert(s@ =~= seq![l] + rule_cols(wv, (i + 1) as nat, m, r));
        }
        i += 1;
    }
    s
}

fn row_line(w: &Vec<usize>, cells: &Vec<String>) -> (s: String)
    ensures
        s@ == row_text(w@.map_values(|x: usize| x as nat), cells@.map_values(|c: String| c@)),
{
    let ghost wv = w@.map_values(|x: usize| x as nat);
    let ghost cv = cells@.map_values(|c: String| c@);
    let mut s = String::new();
    push_char(&mut s, '│');
    let mut i: usize = 0;
    while i < cells.len()
        invariant
            i <= cells.len(),
            wv == w@.map_values(|x: usize| x as nat),
            cv == cells@.map_values(|c: String| c@),
            s@ == seq!['│'] + row_cells(wv, cv, i as nat),
        decreases cells.len() - i,
    {
        let len = cells[i].unicode_len();
        let cw: usize = if i < w.len() { w[i] } else { 0 };
        let pad: usize = if cw > len { cw - len } else { 0 };
        proof {
            assert(cv[i as int] == cells@[i as int]@);
            if i < w.len() {
                assert(wv[i as int] == w@[i as int] as nat);
            }
            assert(pad as nat == pad_of(wv, cv, i as int));
        }
        push_char(&mut s, ' ');
        push_str(&mut s, cells[i].as_str());
        push_repeat(&mut s, ' ', pad);
        push_char(&mut s, ' ');
        proof {
            assert(repeat(' ', pad as nat) + seq![' '] =~= repeat(' ', pad as nat + 1));
        }
        push_char(&mut s, '│');
        proof {
            assert(s@ =~= seq!['│'] + row_cells(wv, cv, (i + 1) as nat));
        }
        i += 1;
    }
    s
}

/// The data rows up to `k` as pieces: each row as it is and a newline,
/// then, but for the last row, a dimmed separating rule and a newline.
pub open spec fn body_pieces(w: Seq<nat>, rows: Seq<Seq<Seq<char>>>, k: nat) -> Seq<Piece>
    decreases k,
{
    if k == 0 {
        seq![]
    } else {
        body_pieces(w, rows, (k - 1) as nat) + seq![(row_text(w, rows[k - 1]), None), (seq!['\n'], None)] + (
        if k < rows.len() {
            seq![(rule_text(w, '├', '┼', '┤'), Some("dim"@)), (seq!['\n'], None)]
        } else {
            seq![]
        })
    }
}

/// The pieces of a table whose header line reads `head`: the rules and the
/// header line dimmed, the data rows as they are.
pub open spec fn table_pieces(w: Seq<nat>, head: Seq<char>, rows: Seq<Seq<Seq<char>>>) -> Seq<Piece> {
    seq![
        (rule_text(w, '┌', '┬', '┐'), Some("dim"@)),
        (seq!['\n'], None),
        (head, Some("dim"@)),
        (seq!['\n'], None),
        (rule_text(w, '├', '┼', '┤'), Some("dim"@)),
        (seq!['\n'], None),
    ] + body_pieces(w, rows, rows.len()) + seq![(rule_text(w, '└', '┴', '┘'), Some("dim"@))]
}

/// The header cells as shown: each header painted in bold.
pub open spec fn bold_cells(hc: Seq<Seq<char>>, headers: Seq<Seq<char>>, on: bool) -> bool {
    hc.len() == headers.len() && forall|i: int| 0 <= i < hc.len() ==> painted(
        #[trigger] hc[i],
        (headers[i], Some("bold"@)),
        on,
    )
}

/// Box-drawing table (`┌─┬┐`), columns as wide as their widest cell in
/// characters. With styles off the text is exactly [`table_text`]; with
/// styles on, the same layout with the rules and header line dimmed and
/// each header in bold (padded by its shown length, as the text is).
pub fn table(headers: &[&str], rows: &[Vec<String>], color: bool) -> (out: String)
    ensures
        !color ==> out@ == table_text(headers_view(headers@), rows_view(rows@)),
        exists|hc: Seq<Seq<char>>| #[trigger] bold_cells(hc, headers_view(headers@), color) && shows(
            out@,
            table_pieces(
                col_widths(headers_view(headers@), rows_view(rows@)),
                row_text(col_widths(headers_view(headers@), rows_view(rows@)), hc),
                rows_view(rows@),
            ),
            color,
        ),
{
    let ghost hv = headers_view(headers@);
    let ghost rv = rows_view(rows@);
    let w = widths_of(headers, rows);
    let ghost wv = w@.map_values(|x: usize| x as nat);
    let mut hcells: Vec<String> = Vec::new();
    let mut i: usize = 0;
    while i < headers.len()
        invariant
            i <= headers.len(),
            hv == headers_view(headers@),
            hcells@.len() == i,
            forall|j: int| 0 <= j < i ==> !color ==> (#[trigger] hcells@[j])@ == hv[j],
            forall|j: int| 0 <= j < i ==> painted((#[trigger] hcells@[j])@, (hv[j], Some("bold"@)), color),
        decreases headers.len() - i,
    {
        hcells.push(paint(headers[i], "bold", color));
        proof {
            assert(hv[i as int] == headers@[i as int]@);
        }
        i += 1;
    }
    let ghost hcv = hcells@.map_values(|c: String| c@);
    proof {
        if !color {
            assert(hcv =~= hv);
        }
        assert(bold_cells(hcv, hv, color)) by {
            assert forall|j: int| 0 <= j < hcv.len() implies painted(#[trigger] hcv[j], (hv[j], Some("bold"@)), color) by {
                assert(hcv[j] == hcells@[j]@);
            }
        }
    }
    proof {
        reveal_strlit("\n");
        assert(seq!['\n'] =~= "\n"@);
    }
    let mut out = String::new();
    let ghost mut ps: Seq<Piece> = seq![];
    let top = rule_line(&w, '┌', '┬', '┐');
    let p0 = paint(top.as_str(), "dim", color);
    push_piece(&mut out, p0.as_str(), Ghost(ps), Ghost((top@, Some("dim"@))), color);
    proof { ps = ps.push((top@, Some("dim"@))); }
    push_piece(&mut out, "\n", Ghost(ps), Ghost((seq!['\n'], None)), color);
    proof { ps = ps.push((seq!['\n'], None)); }
    let head = row_line(&w, &hcells);
    let p1 = paint(head.as_str(), "dim", color);
    push_piece(&mut out, p1.as_str(), Ghost(ps), Ghost((head@, Some("dim"@))), color);
    proof { ps = ps.push((head@, Some("dim"@))); }
    push_piece(&mut out, "\n", Ghost(ps), Ghost((seq!['\n'], None)), color);
    proof { ps = ps.push((seq!['\n'], None)); }
    let mid = rule_line(&w, '├', '┼', '┤');
    let p2 = paint(mid.as_str(), "dim", color);
    push_piece(&mut out, p2.as_str(), Ghost(ps), Ghost((mid@, Some("dim"@))), color);
    proof { ps = ps.push((mid@, Some("dim"@))); }
    push_piece(&mut out, "\n", Ghost(ps), Ghost((seq!['\n'], None)), color);
    proof { ps = ps.push((seq!['\n'], None)); }
    let ghost prefix = out@;
    let ghost pre = ps;
    proof {
        assert(body_pieces(wv, rv, 0) =~= Seq::<Piece>::empty());
        assert(pre + body_pieces(wv, rv, 0) =~= pre);
    }
    let mut n: usize = 0;
    while n < rows.len()
        invariant
            n <= rows.len(),
            rv == rows_view(rows@),
            wv == w@.map_values(|x: usize| x as nat),
            mid@ == rule_text(wv, '├', '┼', '┤'),
            seq!['\n'] == "\n"@,
            !color ==> out@ == prefix + body_text(wv, rv, n as nat),
            ps == pre + body_pieces(wv, rv, n as nat),
            shows(out@, ps, color),
        decreases rows.len() - n,
    {
        let line = row_line(&w, &rows[n]);
        proof {
            assert(rv[n as int] == rows@[n as int]@.map_values(|c: String| c@));
        }
        let ghost before = out@;
        push_piece(&mut out, line.as_str(), Ghost(ps), Ghost((line@, None)), color);
        proof { ps = ps.push((line@, None)); }
        push_piece(&mut out, "\n", Ghost(ps), Ghost((seq!['\n'], None)), color);
        proof { ps = ps.push((seq!['\n'], None)); }
        if n + 1 < rows.len() {
            let pm = paint(mid.as_str(), "dim", color);
            push_piece(&mut out, pm.as_str(), Ghost(ps), Ghost((mid@, Some("dim"@))), color);
            proof { ps = ps.push((mid@, Some("dim"@))); }
            push_piece(&mut out, "\n", Ghost(ps), Ghost((seq!['\n'], None)), color);
            proof { ps = ps.push((seq!['\n'], None)); }
        }
        proof {
            assert(ps =~= pre + body_pieces(wv, rv, (n + 1) as nat));
            if !color {
                assert(out@ =~= prefix + body_text(wv, rv, (n + 1) as nat));
            }
        }
        n += 1;
    }
    let bottom = rule_line(&w, '└', '┴', '┘');
    let p3 = paint(bottom.as_str(), "dim", color);
    push_piece(&mut out, p3.as_str(), Ghost(ps), Ghost((bottom@, Some("dim"@))), color);
    proof {
        ps = ps.push((bottom@, Some("dim"@)));
        assert(ps =~= table_pieces(wv, row_text(wv, hcv), rv));
        if !color {
            assert(out@ =~= table_text(hv, rv));
        }
    }
    out
}

} // verus!
