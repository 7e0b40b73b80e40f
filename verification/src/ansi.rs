//! The styled-text renderer: turns raw text holding ANSI Select Graphic
//! Rendition (SGR) escape sequences into styled lines for the drawing
//! toolkit.
//!
//! An escape sequence is `ESC [`, a run of digits and semicolons, and a
//! final `m` or `K`. Text between sequences becomes a run carrying the style
//! accumulated so far; each recognized SGR parameter mutates the running
//! style, unrecognized ones are skipped, and only `m` sequences change the
//! style at all. A line without any text runs is emitted raw.

use vstd::prelude::*;

use crate::text::chars_eq;
use crate::text::chars_of;
use crate::text::find_char_in;
use crate::text::lemma_find_char_props;
use crate::text::spec_find_char;
use crate::text::subrange_chars;
use crate::text::subrange_string;

verus! {

/// A terminal color: the eight standard colors, their bright variants, an
/// indexed 256-palette color, or a 24-bit color.
#[derive(PartialEq, Eq, Clone, Copy, Debug)]
pub enum Color {
    Black,
    Red,
    Green,
    Yellow,
    Blue,
    Magenta,
    Cyan,
    White,
    DarkGray,
    LightRed,
    LightGreen,
    LightYellow,
    LightBlue,
    LightMagenta,
    LightCyan,
    Gray,
    Indexed(u8),
    Rgb(u8, u8, u8),
}

/// The style a text run carries: attribute flags and optional foreground
/// and background colors.
#[derive(PartialEq, Eq, Clone, Copy, Debug)]
pub struct TextStyle {
    pub bold: bool,
    pub underlined: bool,
    pub reversed: bool,
    pub crossed_out: bool,
    pub fg: Option<Color>,
    pub bg: Option<Color>,
}

/// The style of plain text: no attributes, no colors.
pub open spec fn spec_default_style() -> TextStyle {
    TextStyle {
        bold: false,
        underlined: false,
        reversed: false,
        crossed_out: false,
        fg: None,
        bg: None,
    }
}

impl TextStyle {
    /// The style of plain text: no attributes, no colors.
    pub fn plain() -> (r: TextStyle)
        ensures
            r == spec_default_style(),
    {
        TextStyle {
            bold: false,
            underlined: false,
            reversed: false,
            crossed_out: false,
            fg: None,
            bg: None,
        }
    }
}

/// One run of text drawn in one style.
pub struct TextSpan {
    pub content: String,
    pub style: TextStyle,
}

/// One rendered line: its runs in order.
pub struct StyledLine {
    pub spans: Vec<TextSpan>,
}

/// A rendered block of text: its lines in order.
pub struct StyledText {
    pub lines: Vec<StyledLine>,
}

/// The mathematical value of one run.
pub open spec fn spec_span_model(s: TextSpan) -> (Seq<char>, TextStyle) {
    (s.content@, s.style)
}

/// The mathematical value of one line.
pub open spec fn spec_line_model(l: StyledLine) -> Seq<(Seq<char>, TextStyle)> {
    l.spans@.map_values(|s: TextSpan| spec_span_model(s))
}

/// The mathematical value of a rendered block.
pub open spec fn spec_text_model(t: StyledText) -> Seq<Seq<(Seq<char>, TextStyle)>> {
    t.lines@.map_values(|l: StyledLine| spec_line_model(l))
}

/// A character an escape sequence's parameter list may hold.
pub open spec fn spec_is_param_char(c: char) -> bool {
    ('0' <= c && c <= '9') || c == ';'
}

/// The first position at or after `j` that is no parameter character (or
/// the end of the line).
pub open spec fn spec_param_run_end(line: Seq<char>, j: int) -> int
    decreases line.len() - j,
{
    if j < 0 || j >= line.len() {
        j
    } else if !spec_is_param_char(line[j]) {
        j
    } else {
        spec_param_run_end(line, j + 1)
    }
}

/// The end of a parameter run lies between its start and the end of the
/// line, everything before it is a parameter character, and it stops only
/// at the end of the line or at a non-parameter character.
pub proof fn lemma_param_run_end_props(line: Seq<char>, j: int)
    requires
        0 <= j <= line.len(),
    ensures
        j <= spec_param_run_end(line, j) <= line.len(),
        forall|k: int| j <= k < spec_param_run_end(line, j) ==> spec_is_param_char(line[k]),
        spec_param_run_end(line, j) < line.len() ==> !spec_is_param_char(
            line[spec_param_run_end(line, j)],
        ),
    decreases line.len() - j,
{
    if j < line.len() && spec_is_param_char(line[j]) {
        lemma_param_run_end_props(line, j + 1);
    }
}

/// Where the escape sequence starting at `i` ends (one past its final `m`
/// or `K`), if one starts there.
pub open spec fn spec_match_end(line: Seq<char>, i: int) -> Option<int> {
    if 0 <= i && i + 1 < line.len() && line[i] == '\u{1b}' && line[i + 1] == '[' {
        let j = spec_param_run_end(line, i + 2);
        if j < line.len() && (line[j] == 'm' || line[j] == 'K') {
            Some(j + 1)
        } else {
            None
        }
    } else {
        None
    }
}

/// A recognized escape sequence is at least three characters long and ends
/// within the line.
pub proof fn lemma_match_end_props(line: Seq<char>, i: int)
    ensures
        spec_match_end(line, i) matches Some(e) ==> 0 <= i && i + 3 <= e <= line.len(),
{
    if 0 <= i && i + 1 < line.len() && line[i] == '\u{1b}' && line[i + 1] == '[' {
        lemma_param_run_end_props(line, i + 2);
    }
}

/// The first position at or after `pos` where an escape sequence starts.
pub open spec fn spec_next_match(line: Seq<char>, pos: int) -> Option<int>
    decreases line.len() - pos,
{
    if pos < 0 || pos >= line.len() {
        None
    } else if spec_match_end(line, pos) is Some {
        Some(pos)
    } else {
        spec_next_match(line, pos + 1)
    }
}

/// A found start lies in range, carries a recognized sequence, and is the
/// first such position; a miss means no sequence starts in the rest of the
/// line.
pub proof fn lemma_next_match_props(line: Seq<char>, pos: int)
    requires
        0 <= pos,
    ensures
        spec_next_match(line, pos) matches Some(i) ==> pos <= i < line.len() && spec_match_end(
            line,
            i,
        ) is Some && (forall|k: int| pos <= k < i ==> spec_match_end(line, k) is None),
        spec_next_match(line, pos) is None ==> forall|k: int|
            pos <= k < line.len() ==> spec_match_end(line, k) is None,
    decreases line.len() - pos,
{
    if pos < line.len() && !(spec_match_end(line, pos) is Some) {
        lemma_next_match_props(line, pos + 1);
    }
}

/// Whether every character is a decimal digit.
pub open spec fn spec_all_digits(s: Seq<char>) -> bool {
    forall|k: int| 0 <= k < s.len() ==> '0' <= s[k] && s[k] <= '9'
}

/// The number the digits spell, most significant first.
pub open spec fn spec_digits_value(s: Seq<char>) -> int
    decreases s.len(),
{
    if s.len() == 0 {
        0
    } else {
        spec_digits_value(s.drop_last()) * 10 + ((s.last() as u32) as int - 48)
    }
}

/// The byte value a parameter spells: its digits read as a number, when it
/// is a non-empty run of digits whose value fits a byte.
pub open spec fn spec_parse_u8(s: Seq<char>) -> Option<u8> {
    if s.len() > 0 && spec_all_digits(s) && spec_digits_value(s) <= 255 {
        Some(spec_digits_value(s) as u8)
    } else {
        None
    }
}

/// The style after one single-token SGR parameter, or nothing when the
/// token is not one of the recognized single tokens. A reset (`0` or the
/// empty token) drops every attribute; `1`, `4`, `7` and `9` set bold,
/// underline, reverse and strikethrough; `30`–`37` and `90`–`97` pick
/// foreground colors, `40`–`47` background colors.
pub open spec fn spec_simple_param_style(p: Seq<char>, style: TextStyle) -> Option<TextStyle> {
    if p == "0"@ || p.len() == 0 {
        Some(spec_default_style())
    } else if p == "1"@ {
        Some(TextStyle { bold: true, ..style })
    } else if p == "4"@ {
        Some(TextStyle { underlined: true, ..style })
    } else if p == "7"@ {
        Some(TextStyle { reversed: true, ..style })
    } else if p == "9"@ {
        Some(TextStyle { crossed_out: true, ..style })
    } else if p == "30"@ {
        Some(TextStyle { fg: Some(Color::Black), ..style })
    } else if p == "31"@ {
        Some(TextStyle { fg: Some(Color::Red), ..style })
    } else if p == "32"@ {
        Some(TextStyle { fg: Some(Color::Green), ..style })
    } else if p == "33"@ {
        Some(TextStyle { fg: Some(Color::Yellow), ..style })
    } else if p == "34"@ {
        Some(TextStyle { fg: Some(Color::Blue), ..style })
    } else if p == "35"@ {
        Some(TextStyle { fg: Some(Color::Magenta), ..style })
    } else if p == "36"@ {
        Some(TextStyle { fg: Some(Color::Cyan), ..style })
    } else if p == "37"@ {
        Some(TextStyle { fg: Some(Color::White), ..style })
    } else if p == "90"@ {
        Some(TextStyle { fg: Some(Color::DarkGray), ..style })
    } else if p == "91"@ {
        Some(TextStyle { fg: Some(Color::LightRed), ..style })
    } else if p == "92"@ {
        Some(TextStyle { fg: Some(Color::LightGreen), ..style })
    } else if p == "93"@ {
        Some(TextStyle { fg: Some(Color::LightYellow), ..style })
    } else if p == "94"@ {
        Some(TextStyle { fg: Some(Color::LightBlue), ..style })
    } else if p == "95"@ {
        Some(TextStyle { fg: Some(Color::LightMagenta), ..style })
    } else if p == "96"@ {
        Some(TextStyle { fg: Some(Color::LightCyan), ..style })
    } else if p == "97"@ {
        Some(TextStyle { fg: Some(Color::Gray), ..style })
    } else if p == "40"@ {
        Some(TextStyle { bg: Some(Color::Black), ..style })
    } else if p == "41"@ {
        Some(TextStyle { bg: Some(Color::Red), ..style })
    } else if p == "42"@ {
        Some(TextStyle { bg: Some(Color::Green), ..style })
    } else if p == "43"@ {
        Some(TextStyle { bg: Some(Color::Yellow), ..style })
    } else if p == "44"@ {
        Some(TextStyle { bg: Some(Color::Blue), ..style })
    } else if p == "45"@ {
        Some(TextStyle { bg: Some(Color::Magenta), ..style })
    } else if p == "46"@ {
        Some(TextStyle { bg: Some(Color::Cyan), ..style })
    } else if p == "47"@ {
        Some(TextStyle { bg: Some(Color::White), ..style })
    } else {
        None
    }
}

/// The semicolon-separated tokens of a parameter list, from `pos` on. A
/// trailing semicolon yields a final empty token, and an empty list is one
/// empty token.
pub open spec fn spec_split_semis_from(s: Seq<char>, pos: int) -> Seq<Seq<char>>
    decreases s.len() - pos,
    when 0 <= pos
    via spec_split_semis_from_decreases
{
    if pos > s.len() {
        Seq::empty()
    } else {
        match spec_find_char(s, ';', pos) {
            Some(i) => seq![s.subrange(pos, i)] + spec_split_semis_from(s, i + 1),
            None => seq![s.subrange(pos, s.len() as int)],
        }
    }
}

#[via_fn]
proof fn spec_split_semis_from_decreases(s: Seq<char>, pos: int) {
    lemma_find_char_props(s, ';', pos);
}

/// The semicolon-separated tokens of a parameter list.
pub open spec fn spec_split_semis(s: Seq<char>) -> Seq<Seq<char>> {
    spec_split_semis_from(s, 0)
}

/// The style after the parameters from position `i` on. The multi-token
/// forms `38;5;n`, `38;2;r;g;b`, `48;5;n` and `48;2;r;g;b` pick indexed and
/// 24-bit colors and consume their arguments; a form whose arguments are
/// missing or malformed changes nothing; any other unrecognized token is
/// skipped.
pub open spec fn spec_apply_sgr_params(params: Seq<Seq<char>>, i: int, style: TextStyle) -> TextStyle
    decreases params.len() - i,
{
    if i < 0 || i >= params.len() {
        style
    } else {
        let p = params[i];
        if p == "38"@ && i + 2 < params.len() && params[i + 1] == "5"@ {
            let next = match spec_parse_u8(params[i + 2]) {
                Some(n) => TextStyle { fg: Some(Color::Indexed(n)), ..style },
                None => style,
            };
            spec_apply_sgr_params(params, i + 3, next)
        } else if p == "38"@ && i + 4 < params.len() && params[i + 1] == "2"@ {
            let next = match (
                spec_parse_u8(params[i + 2]),
                spec_parse_u8(params[i + 3]),
                spec_parse_u8(params[i + 4]),
            ) {
                (Some(r), Some(g), Some(b)) => TextStyle { fg: Some(Color::Rgb(r, g, b)), ..style },
                _ => style,
            };
            spec_apply_sgr_params(params, i + 5, next)
        } else if p == "48"@ && i + 2 < params.len() && params[i + 1] == "5"@ {
            let next = match spec_parse_u8(params[i + 2]) {
                Some(n) => TextStyle { bg: Some(Color::Indexed(n)), ..style },
                None => style,
            };
            spec_apply_sgr_params(params, i + 3, next)
        } else if p == "48"@ && i + 4 < params.len() && params[i + 1] == "2"@ {
            let next = match (
                spec_parse_u8(params[i + 2]),
                spec_parse_u8(params[i + 3]),
                spec_parse_u8(params[i + 4]),
            ) {
                (Some(r), Some(g), Some(b)) => TextStyle { bg: Some(Color::Rgb(r, g, b)), ..style },
                _ => style,
            };
            spec_apply_sgr_params(params, i + 5, next)
        } else {
            let next = match spec_simple_param_style(p, style) {
                Some(st) => st,
                None => style,
            };
            spec_apply_sgr_params(params, i + 1, next)
        }
    }
}

/// The style after one whole escape sequence: only an `m` sequence changes
/// anything; a bare `ESC [ m` resets to plain, any other parameter list is
/// applied token by token.
pub open spec fn spec_apply_code(code: Seq<char>, style: TextStyle) -> TextStyle {
    if code.len() >= 3 && code.last() == 'm' {
        let interior = code.subrange(2, code.len() - 1);
        if interior.len() == 0 {
            spec_default_style()
        } else {
            spec_apply_sgr_params(spec_split_semis(interior), 0, style)
        }
    } else {
        style
    }
}

/// The runs of one line from position `pos` on, with `style` accumulated so
/// far: text up to the next escape sequence becomes a run in the current
/// style, the sequence mutates the style and vanishes from the text, and
/// empty runs are never emitted.
pub open spec fn spec_scan_line(line: Seq<char>, pos: int, style: TextStyle) -> Seq<
    (Seq<char>, TextStyle),
>
    decreases line.len() - pos,
    when 0 <= pos
    via spec_scan_line_decreases
{
    match spec_next_match(line, pos) {
        None => {
            if pos < line.len() {
                seq![(line.subrange(pos, line.len() as int), style)]
            } else {
                Seq::empty()
            }
        },
        Some(i) => {
            let e = spec_match_end(line, i)->Some_0;
            let updated = spec_apply_code(line.subrange(i, e), style);
            let rest = spec_scan_line(line, e, updated);
            if i > pos {
                seq![(line.subrange(pos, i), style)] + rest
            } else {
                rest
            }
        },
    }
}

#[via_fn]
proof fn spec_scan_line_decreases(line: Seq<char>, pos: int, style: TextStyle) {
    lemma_next_match_props(line, pos);
    match spec_next_match(line, pos) {
        Some(i) => lemma_match_end_props(line, i),
        None => (),
    }
}

/// One rendered line: its runs, or the raw line as a single plain run when
/// scanning produced no run at all.
pub open spec fn spec_render_line(line: Seq<char>) -> Seq<(Seq<char>, TextStyle)> {
    let spans = spec_scan_line(line, 0, spec_default_style());
    if spans.len() == 0 {
        seq![(line, spec_default_style())]
    } else {
        spans
    }
}

/// The lines of a text, from `pos` on: split on newlines, each line's
/// trailing carriage return removed, with no empty line after a final
/// newline.
pub open spec fn spec_lines_from(s: Seq<char>, pos: int) -> Seq<Seq<char>>
    decreases s.len() - pos,
    when 0 <= pos
    via spec_lines_from_decreases
{
    if pos >= s.len() {
        Seq::empty()
    } else {
        match spec_find_char(s, '\n', pos) {
            Some(i) => seq![spec_strip_cr(s.subrange(pos, i))] + spec_lines_from(s, i + 1),
            None => seq![spec_strip_cr(s.subrange(pos, s.len() as int))],
        }
    }
}

#[via_fn]
proof fn spec_lines_from_decreases(s: Seq<char>, pos: int) {
    lemma_find_char_props(s, '\n', pos);
}

/// A line with its trailing carriage return removed.
pub open spec fn spec_strip_cr(t: Seq<char>) -> Seq<char> {
    if t.len() > 0 && t.last() == '\r' {
        t.drop_last()
    } else {
        t
    }
}

/// The whole rendering: each line of the input, rendered.
pub open spec fn spec_render_text(input: Seq<char>) -> Seq<Seq<(Seq<char>, TextStyle)>> {
    spec_lines_from(input, 0).map_values(|l: Seq<char>| spec_render_line(l))
}

/// The byte value a parameter spells, if any.
pub fn parse_u8(v: &Vec<char>) -> (r: Option<u8>)
    ensures
        r == spec_parse_u8(v@),
{
    if v.len() == 0 {
        return None;
    }
    let mut acc: u32 = 0;
    let mut i: usize = 0;
    while i < v.len()
        invariant
            i <= v@.len(),
            spec_all_digits(v@.subrange(0, i as int)),
            acc <= 256,
            spec_digits_value(v@.subrange(0, i as int)) <= 255 ==> acc == spec_digits_value(
                v@.subrange(0, i as int),
            ),
            spec_digits_value(v@.subrange(0, i as int)) > 255 ==> acc == 256,
        decreases v@.len() - i,
    {
        let c = v[i];
        if !('0' <= c && c <= '9') {
            proof {
                assert(!spec_all_digits(v@));
            }
            return None;
        }
        let d: u32 = (c as u32) - 48;
        proof {
            assert(v@.subrange(0, i + 1 as int).drop_last() =~= v@.subrange(0, i as int));
            assert(v@.subrange(0, i + 1 as int).last() == c);
        }
        if acc > 25 || (acc == 25 && d > 5) {
            acc = 256;
        } else {
            acc = acc * 10 + d;
        }
        i += 1;
    }
    proof {
        assert(v@.subrange(0, v@.len() as int) =~= v@);
    }
    if acc <= 255 {
        Some(acc as u8)
    } else {
        None
    }
}

/// The style after one single-token SGR parameter, if the token is
/// recognized.
fn simple_param_style(p: &Vec<char>, style: TextStyle) -> (r: Option<TextStyle>)
    ensures
        r == spec_simple_param_style(p@, style),
{
    if chars_eq(p, "0") || p.len() == 0 {
        Some(TextStyle::plain())
    } else if chars_eq(p, "1") {
        Some(TextStyle { bold: true, ..style })
    } else if chars_eq(p, "4") {
        Some(TextStyle { underlined: true, ..style })
    } else if chars_eq(p, "7") {
        Some(TextStyle { reversed: true, ..style })
    } else if chars_eq(p, "9") {
        Some(TextStyle { crossed_out: true, ..style })
    } else if chars_eq(p, "30") {
        Some(TextStyle { fg: Some(Color::Black), ..style })
    } else if chars_eq(p, "31") {
        Some(TextStyle { fg: Some(Color::Red), ..style })
    } else if chars_eq(p, "32") {
        Some(TextStyle { fg: Some(Color::Green), ..style })
    } else if chars_eq(p, "33") {
        Some(TextStyle { fg: Some(Color::Yellow), ..style })
    } else if chars_eq(p, "34") {
        Some(TextStyle { fg: Some(Color::Blue), ..style })
    } else if chars_eq(p, "35") {
        Some(TextStyle { fg: Some(Color::Magenta), ..style })
    } else if chars_eq(p, "36") {
        Some(TextStyle { fg: Some(Color::Cyan), ..style })
    } else if chars_eq(p, "37") {
        Some(TextStyle { fg: Some(Color::White), ..style })
    } else if chars_eq(p, "90") {
        Some(TextStyle { fg: Some(Color::DarkGray), ..style })
    } else if chars_eq(p, "91") {
        Some(TextStyle { fg: Some(Color::LightRed), ..style })
    } else if chars_eq(p, "92") {
        Some(TextStyle { fg: Some(Color::LightGreen), ..style })
    } else if chars_eq(p, "93") {
        Some(TextStyle { fg: Some(Color::LightYellow), ..style })
    } else if chars_eq(p, "94") {
        Some(TextStyle { fg: Some(Color::LightBlue), ..style })
    } else if chars_eq(p, "95") {
        Some(TextStyle { fg: Some(Color::LightMagenta), ..style })
    } else if chars_eq(p, "96") {
        Some(TextStyle { fg: Some(Color::LightCyan), ..style })
    } else if chars_eq(p, "97") {
        Some(TextStyle { fg: Some(Color::Gray), ..style })
    } else if chars_eq(p, "40") {
        Some(TextStyle { bg: Some(Color::Black), ..style })
    } else if chars_eq(p, "41") {
        Some(TextStyle { bg: Some(Color::Red), ..style })
    } else if chars_eq(p, "42") {
        Some(TextStyle { bg: Some(Color::Green), ..style })
    } else if chars_eq(p, "43") {
        Some(TextStyle { bg: Some(Color::Yellow), ..style })
    } else if chars_eq(p, "44") {
        Some(TextStyle { bg: Some(Color::Blue), ..style })
    } else if chars_eq(p, "45") {
        Some(TextStyle { bg: Some(Color::Magenta), ..style })
    } else if chars_eq(p, "46") {
        Some(TextStyle { bg: Some(Color::Cyan), ..style })
    } else if chars_eq(p, "47") {
        Some(TextStyle { bg: Some(Color::White), ..style })
    } else {
        None
    }
}

/// The semicolon-separated tokens of a parameter list.
fn split_semis(v: &Vec<char>) -> (r: Vec<Vec<char>>)
    ensures
        r@.map_values(|u: Vec<char>| u@) == spec_split_semis(v@),
{
    let mut r: Vec<Vec<char>> = Vec::new();
    let mut pos: usize = 0;
    loop
        invariant
            pos <= v@.len(),
            spec_split_semis(v@) == r@.map_values(|u: Vec<char>| u@) + spec_split_semis_from(
                v@,
                pos as int,
            ),
        decreases v@.len() - pos,
    {
        let ghost before = r@.map_values(|u: Vec<char>| u@);
        let vlen = v.len();
        match find_char_in(v, ';', pos) {
            Some(i) => {
                proof {
                    assert(i < vlen);
                }
                r.push(subrange_chars(v, pos, i));
                proof {
                    assert(r@.map_values(|u: Vec<char>| u@) =~= before.push(
                        v@.subrange(pos as int, i as int),
                    ));
                    assert(spec_split_semis_from(v@, pos as int) == seq![
                        v@.subrange(pos as int, i as int),
                    ] + spec_split_semis_from(v@, i + 1 as int));
                    assert(before + spec_split_semis_from(v@, pos as int) =~= r@.map_values(
                        |u: Vec<char>| u@,
                    ) + spec_split_semis_from(v@, i + 1 as int));
                }
                pos = i + 1;
            },
            None => {
                r.push(subrange_chars(v, pos, v.len()));
                proof {
                    assert(r@.map_values(|u: Vec<char>| u@) =~= before.push(
                        v@.subrange(pos as int, v@.len() as int),
                    ));
                    assert(r@.map_values(|u: Vec<char>| u@) =~= spec_split_semis(v@));
                }
                return r;
            },
        }
    }
}

/// The style after a whole parameter list.
fn apply_sgr_params(params: &Vec<Vec<char>>, style: TextStyle) -> (r: TextStyle)
    ensures
        r == spec_apply_sgr_params(params@.map_values(|u: Vec<char>| u@), 0, style),
{
    let ghost model = params@.map_values(|u: Vec<char>| u@);
    let mut cur = style;
    let mut i: usize = 0;
    while i < params.len()
        invariant
            model == params@.map_values(|u: Vec<char>| u@),
            spec_apply_sgr_params(model, i as int, cur) == spec_apply_sgr_params(model, 0, style),
        decreases params@.len() - i,
    {
        proof {
            assert(model[i as int] == params@[i as int]@);
        }
        if chars_eq(&params[i], "38") && params.len() - i > 2 && chars_eq(&params[i + 1], "5") {
            match parse_u8(&params[i + 2]) {
                Some(n) => {
                    cur = TextStyle { fg: Some(Color::Indexed(n)), ..cur };
                },
                None => {},
            }
            i += 3;
        } else if chars_eq(&params[i], "38") && params.len() - i > 4 && chars_eq(
            &params[i + 1],
            "2",
        ) {
            let pr = parse_u8(&params[i + 2]);
            let pg = parse_u8(&params[i + 3]);
            let pb = parse_u8(&params[i + 4]);
            match (pr, pg, pb) {
                (Some(cr), Some(cg), Some(cb)) => {
                    cur = TextStyle { fg: Some(Color::Rgb(cr, cg, cb)), ..cur };
                },
                _ => {},
            }
            i += 5;
        } else if chars_eq(&params[i], "48") && params.len() - i > 2 && chars_eq(
            &params[i + 1],
            "5",
        ) {
            match parse_u8(&params[i + 2]) {
                Some(n) => {
                    cur = TextStyle { bg: Some(Color::Indexed(n)), ..cur };
                },
                None => {},
            }
            i += 3;
        } else if chars_eq(&params[i], "48") && params.len() - i > 4 && chars_eq(
            &params[i + 1],
            "2",
        ) {
            let pr = parse_u8(&params[i + 2]);
            let pg = parse_u8(&params[i + 3]);
            let pb = parse_u8(&params[i + 4]);
            match (pr, pg, pb) {
                (Some(cr), Some(cg), Some(cb)) => {
                    cur = TextStyle { bg: Some(Color::Rgb(cr, cg, cb)), ..cur };
                },
                _ => {},
            }
            i += 5;
        } else {
            match simple_param_style(&params[i], cur) {
                Some(st) => {
                    cur = st;
                },
                None => {},
            }
            i += 1;
        }
    }
    cur
}

/// The style after one whole escape sequence, given as its characters.
fn apply_code(code: &Vec<char>, style: TextStyle) -> (r: TextStyle)
    ensures
        r == spec_apply_code(code@, style),
{
    if code.len() < 3 {
        return style;
    }
    if code[code.len() - 1] != 'm' {
        return style;
    }
    let interior = subrange_chars(code, 2, code.len() - 1);
    if interior.len() == 0 {
        TextStyle::plain()
    } else {
        let params = split_semis(&interior);
        apply_sgr_params(&params, style)
    }
}

/// The style after one escape sequence: only an `m` sequence changes
/// anything; a bare reset restores the plain style; unrecognized parameters
/// are skipped without aborting the scan.
pub fn parse_sgr_sequence(code: &str, current_style: TextStyle) -> (r: TextStyle)
    ensures
        r == spec_apply_code(code@, current_style),
{
    let chars = chars_of(code);
    apply_code(&chars, current_style)
}

/// Where the escape sequence starting at `i` ends, if one starts there.
fn match_end_at(line: &Vec<char>, i: usize) -> (r: Option<usize>)
    ensures
        r matches Some(e) ==> spec_match_end(line@, i as int) == Some(e as int),
        r is None ==> spec_match_end(line@, i as int) is None,
{
    if i >= line.len() || line.len() - i <= 1 {
        return None;
    }
    if !(line[i] == '\u{1b}' && line[i + 1] == '[') {
        return None;
    }
    let mut j = i + 2;
    while j < line.len() && (('0' <= line[j] && line[j] <= '9') || line[j] == ';')
        invariant
            i + 2 <= j <= line@.len(),
            spec_param_run_end(line@, i + 2 as int) == spec_param_run_end(line@, j as int),
        decreases line@.len() - j,
    {
        j += 1;
    }
    if j < line.len() && (line[j] == 'm' || line[j] == 'K') {
        Some(j + 1)
    } else {
        None
    }
}

/// The first position at or after `pos` where an escape sequence starts,
/// with that sequence's end.
fn find_next_match(line: &Vec<char>, pos: usize) -> (r: Option<(usize, usize)>)
    ensures
        r matches Some(ie) ==> spec_next_match(line@, pos as int) == Some(ie.0 as int)
            && spec_match_end(line@, ie.0 as int) == Some(ie.1 as int),
        r is None ==> spec_next_match(line@, pos as int) is None,
{
    let mut i = pos;
    while i < line.len()
        invariant
            pos <= i,
            spec_next_match(line@, pos as int) == spec_next_match(line@, i as int),
        decreases line@.len() - i,
    {
        match match_end_at(line, i) {
            Some(e) => {
                return Some((i, e));
            },
            None => {},
        }
        i += 1;
    }
    None
}

/// One line rendered into runs: text between escape sequences in the style
/// accumulated so far, and the raw line as one plain run when no run came
/// out of the scan.
fn render_line(line: &Vec<char>) -> (r: StyledLine)
    ensures
        spec_line_model(r) == spec_render_line(line@),
{
    let mut spans: Vec<TextSpan> = Vec::new();
    let mut style = TextStyle::plain();
    let mut pos: usize = 0;
    loop
        invariant_except_break
            pos <= line@.len(),
            spec_scan_line(line@, 0, spec_default_style()) == spec_line_model(
                StyledLine { spans },
            ) + spec_scan_line(line@, pos as int, style),
        ensures
            spec_line_model(StyledLine { spans }) == spec_scan_line(
                line@,
                0,
                spec_default_style(),
            ),
        decreases line@.len() - pos + 1,
    {
        let ghost before = spec_line_model(StyledLine { spans });
        match find_next_match(line, pos) {
            None => {
                if pos < line.len() {
                    let content = subrange_string(line, pos, line.len());
                    spans.push(TextSpan { content, style });
                    proof {
                        assert(spec_line_model(StyledLine { spans }) =~= before.push(
                            (line@.subrange(pos as int, line@.len() as int), style),
                        ));
                        assert(spec_line_model(StyledLine { spans }) =~= spec_scan_line(
                            line@,
                            0,
                            spec_default_style(),
                        ));
                    }
                } else {
                    proof {
                        assert(spec_scan_line(line@, pos as int, style) =~= Seq::<
                            (Seq<char>, TextStyle),
                        >::empty());
                        assert(before =~= spec_scan_line(line@, 0, spec_default_style()));
                    }
                }
                break ;
            },
            Some((i, e)) => {
                proof {
                    lemma_next_match_props(line@, pos as int);
                    lemma_match_end_props(line@, i as int);
                }
                if i > pos {
                    let content = subrange_string(line, pos, i);
                    spans.push(TextSpan { content, style });
                    proof {
                        assert(spec_line_model(StyledLine { spans }) =~= before.push(
                            (line@.subrange(pos as int, i as int), style),
                        ));
                    }
                }
                let code = subrange_chars(line, i, e);
                let updated = apply_code(&code, style);
                proof {
                    assert(spec_scan_line(line@, pos as int, style) == (if i > pos {
                        seq![(line@.subrange(pos as int, i as int), style)] + spec_scan_line(
                            line@,
                            e as int,
                            spec_apply_code(line@.subrange(i as int, e as int), style),
                        )
                    } else {
                        spec_scan_line(
                            line@,
                            e as int,
                            spec_apply_code(line@.subrange(i as int, e as int), style),
                        )
                    }));
                    assert(spec_line_model(StyledLine { spans }) + spec_scan_line(
                        line@,
                        e as int,
                        updated,
                    ) =~= before + spec_scan_line(line@, pos as int, style));
                }
                style = updated;
                pos = e;
            },
        }
    }
    if spans.len() == 0 {
        let content = subrange_string(line, 0, line.len());
        proof {
            assert(line@.subrange(0, line@.len() as int) =~= line@);
        }
        spans.push(TextSpan { content, style: TextStyle::plain() });
        proof {
            assert(spec_line_model(StyledLine { spans }) =~= seq![(line@, spec_default_style())]);
        }
    }
    StyledLine { spans }
}

/// The lines of the input, split on newlines with trailing carriage
/// returns removed.
fn split_lines(v: &Vec<char>) -> (r: Vec<Vec<char>>)
    ensures
        r@.map_values(|u: Vec<char>| u@) == spec_lines_from(v@, 0),
{
    let mut r: Vec<Vec<char>> = Vec::new();
    let mut pos: usize = 0;
    while pos < v.len()
        invariant
            pos <= v@.len(),
            spec_lines_from(v@, 0) == r@.map_values(|u: Vec<char>| u@) + spec_lines_from(
                v@,
                pos as int,
            ),
        decreases v@.len() - pos,
    {
        let ghost before = r@.map_values(|u: Vec<char>| u@);
        match find_char_in(v, '\n', pos) {
            Some(i) => {
                let mut endi = i;
                if endi > pos && v[endi - 1] == '\r' {
                    endi = endi - 1;
                }
                let segment = subrange_chars(v, pos, endi);
                proof {
                    assert(segment@ =~= spec_strip_cr(v@.subrange(pos as int, i as int)));
                }
                r.push(segment);
                proof {
                    assert(r@.map_values(|u: Vec<char>| u@) =~= before.push(
                        spec_strip_cr(v@.subrange(pos as int, i as int)),
                    ));
                    assert(before + spec_lines_from(v@, pos as int) =~= r@.map_values(
                        |u: Vec<char>| u@,
                    ) + spec_lines_from(v@, i + 1 as int));
                }
                pos = i + 1;
            },
            None => {
                let mut endi = v.len();
                if endi > pos && v[endi - 1] == '\r' {
                    endi = endi - 1;
                }
                let segment = subrange_chars(v, pos, endi);
                proof {
                    assert(segment@ =~= spec_strip_cr(v@.subrange(pos as int, v@.len() as int)));
                }
                r.push(segment);
                proof {
                    assert(r@.map_values(|u: Vec<char>| u@) =~= before.push(
                        spec_strip_cr(v@.subrange(pos as int, v@.len() as int)),
                    ));
                    assert(r@.map_values(|u: Vec<char>| u@) =~= spec_lines_from(v@, 0));
                }
                return r;
            },
        }
    }
    proof {
        assert(spec_lines_from(v@, pos as int) =~= Seq::<Seq<char>>::empty());
        assert(r@.map_values(|u: Vec<char>| u@) =~= spec_lines_from(v@, 0));
    }
    r
}

/// The renderer's whole work: the input split into lines, each line's
/// escape sequences folded into styles, each line rendered into runs.
pub fn parse_delta_ansi(input: &str) -> (r: StyledText)
    ensures
        spec_text_model(r) == spec_render_text(input@),
{
    let chars = chars_of(input);
    let lines = split_lines(&chars);
    let mut out: Vec<StyledLine> = Vec::new();
    let mut i: usize = 0;
    while i < lines.len()
        invariant
            i <= lines@.len(),
            lines@.map_values(|u: Vec<char>| u@) == spec_lines_from(input@, 0),
            out@.map_values(|l: StyledLine| spec_line_model(l)) == spec_lines_from(
                input@,
                0,
            ).subrange(0, i as int).map_values(|l: Seq<char>| spec_render_line(l)),
        decreases lines@.len() - i,
    {
        let ghost before = out@.map_values(|l: StyledLine| spec_line_model(l));
        let rendered = render_line(&lines[i]);
        out.push(rendered);
        proof {
            assert(lines@[i as int]@ == spec_lines_from(input@, 0)[i as int]);
            assert(out@.map_values(|l: StyledLine| spec_line_model(l)) =~= before.push(
                spec_render_line(spec_lines_from(input@, 0)[i as int]),
            ));
            assert(out@.map_values(|l: StyledLine| spec_line_model(l)) =~= spec_lines_from(
                input@,
                0,
            ).subrange(0, i + 1 as int).map_values(|l: Seq<char>| spec_render_line(l)));
        }
        i += 1;
    }
    proof {
        assert(spec_lines_from(input@, 0).subrange(0, spec_lines_from(input@, 0).len() as int)
            =~= spec_lines_from(input@, 0));
        assert(out@.map_values(|l: StyledLine| spec_line_model(l)) =~= spec_render_text(input@));
    }
    StyledText { lines: out }
}

} // verus!
