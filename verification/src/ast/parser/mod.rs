//! The grammar of the label language.
//!
//! A label is a sequence of commands, each a caret followed by a short code and a
//! comma-separated list of positional parameters. Every matcher looks at the input from
//! a position and either yields a value and the position after it, or fails. A failure
//! is either soft, which lets the next matcher try, or fatal, which ends parsing with a
//! diagnostic for the place where it happened.
//!
//! Each matcher has a mathematical twin over `Seq<char>` that says what it accepts, and
//! the executable matcher is proved to compute exactly that.

use vstd::prelude::*;
use crate::ast::cmd::{Command, CommandView};
use crate::error::{ZplError, ZplErrorView, ZplResult};
use crate::text::{chars_of, opt_chars, push_str, string_of, trimmed_range, trimmed_string};

pub mod custom;
pub mod standard;

verus! {

/// Why a matcher failed.
#[derive(Debug, Clone, Copy, PartialEq, Eq, Structural)]
pub enum ErrorKind {
    /// A fixed piece of text was expected.
    Tag,
    /// A digit was expected.
    Digit,
    /// A parameter character was expected.
    NoneOf,
    /// A value was read but is not acceptable.
    MapRes,
    /// The input ended too early, or did not end where it should.
    Eof,
}

/// A failed match.
#[derive(Debug, Clone, Copy, PartialEq, Eq, Structural)]
pub struct Failure {
    /// Why the matcher failed.
    pub kind: ErrorKind,
    /// The position in the input, in characters, where it failed.
    pub at: usize,
    /// Whether parsing ends here; otherwise the next matcher may try.
    pub fatal: bool,
}

/// The result of a matcher: the position after the match and the value, or a failure.
pub type Res<T> = Result<(usize, T), Failure>;

/// The mathematical value of a [`Failure`].
pub struct FailureView {
    pub kind: ErrorKind,
    pub at: int,
    pub fatal: bool,
}

impl View for Failure {
    type V = FailureView;

    open spec fn view(&self) -> FailureView {
        FailureView { kind: self.kind, at: self.at as int, fatal: self.fatal }
    }
}

/// The result of a matcher as a mathematical value.
pub type SpecRes<T> = Result<(int, T), FailureView>;

/// The value of a result whose payload is a plain value.
pub open spec fn plain<T>(r: Res<T>) -> SpecRes<T> {
    match r {
        Ok((next, v)) => Ok((next as int, v)),
        Err(f) => Err(f@),
    }
}

/// The value of a result that carries a command.
pub open spec fn command_res(r: Res<Command>) -> SpecRes<CommandView> {
    match r {
        Ok((next, c)) => Ok((next as int, c@)),
        Err(f) => Err(f@),
    }
}

/// The value of a result that carries text.
pub open spec fn text_res(r: Res<String>) -> SpecRes<Seq<char>> {
    match r {
        Ok((next, t)) => Ok((next as int, t@)),
        Err(f) => Err(f@),
    }
}

/// A matcher that moves from `pos` to `next` moves forward and stays inside the input,
/// or does not move at all.
pub open spec fn reaches(s: Seq<char>, pos: usize, next: usize) -> bool {
    next == pos || pos < next <= s.len()
}

/// A soft failure of the given kind at `at`.
pub open spec fn soft<T>(kind: ErrorKind, at: int) -> SpecRes<T> {
    Err(FailureView { kind, at, fatal: false })
}

/// The same result, with a failure made fatal.
pub open spec fn cut<T>(r: SpecRes<T>) -> SpecRes<T> {
    match r {
        Ok(v) => Ok(v),
        Err(f) => Err(FailureView { fatal: true, ..f }),
    }
}

/// The result if it matched, else "absent" without moving from `pos`.
pub open spec fn lenient<T>(r: SpecRes<Option<T>>, pos: int) -> (int, Option<T>) {
    match r {
        Ok(found) => found,
        Err(_) => (pos, None),
    }
}

/// The first result unless it failed softly, in which case the second.
pub open spec fn or_else<T>(first: SpecRes<T>, second: SpecRes<T>) -> SpecRes<T> {
    match first {
        Err(f) if !f.fatal => second,
        _ => first,
    }
}

/// The white space between commands: blank, tab, carriage return and line feed.
pub open spec fn is_space(c: char) -> bool {
    c == ' ' || c == '\t' || c == '\r' || c == '\n'
}

/// The characters that cannot stand for a one-character parameter.
pub open spec fn is_delimiter(c: char) -> bool {
    c == ',' || c == '^' || is_space(c)
}

/// The decimal digits `0..9`.
pub open spec fn is_digit(c: char) -> bool {
    '0' as u32 <= c as u32 <= '9' as u32
}

/// The first position at or after `pos` that holds no inter-command white space.
pub open spec fn skip_spaces(s: Seq<char>, pos: int) -> int
    decreases s.len() - pos,
{
    if 0 <= pos < s.len() && is_space(s[pos]) {
        skip_spaces(s, pos + 1)
    } else {
        pos
    }
}

/// The first position at or after `pos` that holds no digit.
pub open spec fn digits_end(s: Seq<char>, pos: int) -> int
    decreases s.len() - pos,
{
    if 0 <= pos < s.len() && is_digit(s[pos]) {
        digits_end(s, pos + 1)
    } else {
        pos
    }
}

/// The first position at or after `pos` that holds a caret, or the end of the input.
pub open spec fn text_end(s: Seq<char>, pos: int) -> int
    decreases s.len() - pos,
{
    if 0 <= pos < s.len() && s[pos] != '^' {
        text_end(s, pos + 1)
    } else {
        pos
    }
}

/// The number that the digits `s[from..to]` spell.
pub open spec fn decimal_value(s: Seq<char>, from: int, to: int) -> nat
    decreases to - from,
{
    if 0 <= from < to <= s.len() {
        decimal_value(s, from, to - 1) * 10 + (s[to - 1] as u32 - '0' as u32) as nat
    } else {
        0
    }
}

/// A one-character parameter: any character but a comma, a caret or white space.
pub open spec fn spec_parse_char(s: Seq<char>, pos: int) -> SpecRes<char> {
    if 0 <= pos < s.len() && !is_delimiter(s[pos]) {
        Ok((pos + 1, s[pos]))
    } else {
        soft(ErrorKind::NoneOf, pos)
    }
}

/// An unsigned number: one or more digits whose value fits in 32 bits.
pub open spec fn spec_parse_u32(s: Seq<char>, pos: int) -> SpecRes<u32> {
    let end = digits_end(s, pos);
    if end <= pos {
        soft(ErrorKind::Digit, pos)
    } else if decimal_value(s, pos, end) > u32::MAX {
        soft(ErrorKind::MapRes, pos)
    } else {
        Ok((end, decimal_value(s, pos, end) as u32))
    }
}

/// A decimal number: digits, optionally followed by a point and more digits. The
/// value is the text as written.
pub open spec fn spec_parse_f32(s: Seq<char>, pos: int) -> SpecRes<Seq<char>> {
    let whole_end = digits_end(s, pos);
    if whole_end <= pos {
        soft(ErrorKind::Digit, pos)
    } else {
        let end = if whole_end < s.len() && s[whole_end] == '.' && digits_end(s, whole_end + 1)
            > whole_end + 1 {
            digits_end(s, whole_end + 1)
        } else {
            whole_end
        };
        Ok((end, s.subrange(pos, end)))
    }
}

/// A parameter is absent where the input ends or a comma or a caret follows at once.
pub open spec fn param_absent(s: Seq<char>, pos: int) -> bool {
    pos < 0 || pos >= s.len() || s[pos] == ',' || s[pos] == '^'
}

/// A leading parameter: absent, or what `inner` reads at `pos`.
pub open spec fn spec_opt<T>(s: Seq<char>, pos: int, inner: SpecRes<T>) -> SpecRes<Option<T>> {
    if param_absent(s, pos) {
        Ok((pos, None))
    } else {
        match inner {
            Ok((next, v)) => Ok((next, Some(v))),
            Err(f) => Err(f),
        }
    }
}

/// A leading number.
pub open spec fn spec_opt_u32(s: Seq<char>, pos: int) -> SpecRes<Option<u32>> {
    spec_opt(s, pos, spec_parse_u32(s, pos))
}

/// A leading one-character parameter.
pub open spec fn spec_opt_char(s: Seq<char>, pos: int) -> SpecRes<Option<char>> {
    spec_opt(s, pos, spec_parse_char(s, pos))
}

/// Whether a comma stands at `pos`.
pub open spec fn comma_at(s: Seq<char>, pos: int) -> bool {
    0 <= pos < s.len() && s[pos] == ','
}

/// A subsequent number: a comma, then a leading number.
pub open spec fn spec_param_u32(s: Seq<char>, pos: int) -> SpecRes<Option<u32>> {
    if comma_at(s, pos) {
        spec_opt_u32(s, pos + 1)
    } else {
        soft(ErrorKind::Tag, pos)
    }
}

/// A subsequent one-character parameter: a comma, then a leading one.
pub open spec fn spec_param_char(s: Seq<char>, pos: int) -> SpecRes<Option<char>> {
    if comma_at(s, pos) {
        spec_opt_char(s, pos + 1)
    } else {
        soft(ErrorKind::Tag, pos)
    }
}

/// A subsequent decimal number: a comma, then a leading one.
pub open spec fn spec_param_f32(s: Seq<char>, pos: int) -> SpecRes<Option<Seq<char>>> {
    if comma_at(s, pos) {
        spec_opt(s, pos + 1, spec_parse_f32(s, pos + 1))
    } else {
        soft(ErrorKind::Tag, pos)
    }
}

/// A pair of coordinates: a leading number, then a subsequent one that may be missing
/// or unreadable, in which case it is absent.
pub open spec fn spec_parse_xy(s: Seq<char>, pos: int) -> SpecRes<(Option<u32>, Option<u32>)> {
    match spec_opt_u32(s, pos) {
        Ok((after_x, x)) => {
            let (after_y, y) = lenient(spec_param_u32(s, after_x), after_x);
            Ok((after_y, (x, y)))
        },
        Err(f) => Err(f),
    }
}

/// The text up to the next caret, without white space at either end.
pub open spec fn text_until_caret(s: Seq<char>, pos: int) -> Seq<char> {
    trimmed_range(s, pos, text_end(s, pos))
}

/// Reading more digits never makes the number smaller.
pub proof fn lemma_decimal_value_grows(s: Seq<char>, from: int, mid: int, to: int)
    requires
        0 <= from <= mid <= to <= s.len(),
        forall|i: int| from <= i < to ==> is_digit(s[i]),
    ensures
        decimal_value(s, from, mid) <= decimal_value(s, from, to),
    decreases to - mid,
{
    if mid < to {
        lemma_decimal_value_grows(s, from, mid, to - 1);
    }
}

/// All positions between `pos` and `digits_end` hold digits, and the next one does not.
pub proof fn lemma_digits_end(s: Seq<char>, pos: int)
    requires
        0 <= pos <= s.len(),
    ensures
        forall|i: int| pos <= i < digits_end(s, pos) ==> is_digit(s[i]),
        digits_end(s, pos) < s.len() ==> !is_digit(s[digits_end(s, pos)]),
    decreases s.len() - pos,
{
    if pos < s.len() && is_digit(s[pos]) {
        lemma_digits_end(s, pos + 1);
    }
}

/// Whether `c` is inter-command white space.
pub fn space_char(c: char) -> (b: bool)
    ensures
        b == is_space(c),
{
    c == ' ' || c == '\t' || c == '\r' || c == '\n'
}

/// Whether `c` is a decimal digit.
pub fn decimal_digit(c: char) -> (b: bool)
    ensures
        b == is_digit(c),
{
    let code = c as u32;
    '0' as u32 <= code && code <= '9' as u32
}

/// The first position at or after `pos` that holds no inter-command white space.
pub fn skip_whitespace(input: &[char], pos: usize) -> (next: usize)
    requires
        pos <= input@.len(),
    ensures
        next == skip_spaces(input@, pos as int),
        pos <= next <= input@.len(),
{
    let mut next = pos;
    while next < input.len() && space_char(input[next])
        invariant
            pos <= next <= input@.len(),
            skip_spaces(input@, next as int) == skip_spaces(input@, pos as int),
        decreases input@.len() - next,
    {
        next += 1;
    }
    next
}

/// The first position at or after `pos` that holds no digit.
pub fn scan_digits(input: &[char], pos: usize) -> (next: usize)
    requires
        pos <= input@.len(),
    ensures
        next == digits_end(input@, pos as int),
        pos <= next <= input@.len(),
{
    let mut next = pos;
    while next < input.len() && decimal_digit(input[next])
        invariant
            pos <= next <= input@.len(),
            digits_end(input@, next as int) == digits_end(input@, pos as int),
        decreases input@.len() - next,
    {
        next += 1;
    }
    next
}

/// The first position at or after `pos` that holds a caret, or the end of the input.
pub fn scan_text(input: &[char], pos: usize) -> (next: usize)
    requires
        pos <= input@.len(),
    ensures
        next == text_end(input@, pos as int),
        pos <= next <= input@.len(),
{
    let mut next = pos;
    while next < input.len() && input[next] != '^'
        invariant
            pos <= next <= input@.len(),
            text_end(input@, next as int) == text_end(input@, pos as int),
        decreases input@.len() - next,
    {
        next += 1;
    }
    next
}

/// Reads the text up to the next caret and trims it. Never fails.
pub fn take_text(input: &[char], pos: usize) -> (r: (usize, String))
    requires
        pos <= input@.len(),
    ensures
        r.0 == text_end(input@, pos as int),
        r.1@ == text_until_caret(input@, pos as int),
        pos <= r.0 <= input@.len(),
{
    let end = scan_text(input, pos);
    (end, trimmed_string(input, pos, end))
}

/// A soft failure.
pub fn fail<T>(kind: ErrorKind, at: usize) -> (r: Res<T>)
    ensures
        plain(r) == soft::<T>(kind, at as int),
{
    Err(Failure { kind, at, fatal: false })
}

/// Makes a failure fatal.
pub fn fatal(f: Failure) -> (r: Failure)
    ensures
        r@ == (FailureView { fatal: true, ..f@ }),
{
    Failure { kind: f.kind, at: f.at, fatal: true }
}

/// Reads a one-character parameter.
pub fn parse_char(input: &[char], pos: usize) -> (r: Res<char>)
    ensures
        plain(r) == spec_parse_char(input@, pos as int),
        r matches Ok((next, _)) ==> pos < next <= input@.len(),
{
    if pos < input.len() {
        let c = input[pos];
        if !(c == ',' || c == '^' || space_char(c)) {
            return Ok((pos + 1, c));
        }
    }
    fail(ErrorKind::NoneOf, pos)
}

/// Reads an unsigned number.
pub fn parse_u32(input: &[char], pos: usize) -> (r: Res<u32>)
    ensures
        plain(r) == spec_parse_u32(input@, pos as int),
        r matches Ok((next, _)) ==> pos < next <= input@.len(),
{
    if pos >= input.len() {
        return fail(ErrorKind::Digit, pos);
    }
    let end = scan_digits(input, pos);
    if end == pos {
        return fail(ErrorKind::Digit, pos);
    }
    proof {
        lemma_digits_end(input@, pos as int);
    }
    let mut value: u64 = 0;
    let mut i = pos;
    while i < end
        invariant
            pos <= i <= end <= input@.len(),
            pos < end,
            end == digits_end(input@, pos as int),
            value == decimal_value(input@, pos as int, i as int),
            value <= u32::MAX,
            forall|j: int| pos <= j < end ==> is_digit(input@[j]),
        decreases end - i,
    {
        let digit = (input[i] as u32 - '0' as u32) as u64;
        value = value * 10 + digit;
        i += 1;
        if value > u32::MAX as u64 {
            proof {
                lemma_decimal_value_grows(input@, pos as int, i as int, end as int);
            }
            return fail(ErrorKind::MapRes, pos);
        }
    }
    Ok((end, value as u32))
}

/// Reads a decimal number and returns it as written.
pub fn parse_f32(input: &[char], pos: usize) -> (r: Res<String>)
    ensures
        text_res(r) == spec_parse_f32(input@, pos as int),
        r matches Ok((next, _)) ==> pos < next <= input@.len(),
{
    if pos >= input.len() {
        return fail(ErrorKind::Digit, pos);
    }
    let whole_end = scan_digits(input, pos);
    if whole_end == pos {
        return fail(ErrorKind::Digit, pos);
    }
    let mut end = whole_end;
    if whole_end < input.len() && input[whole_end] == '.' {
        let fraction_end = scan_digits(input, whole_end + 1);
        if fraction_end > whole_end + 1 {
            end = fraction_end;
        }
    }
    Ok((end, string_of(input, pos, end)))
}

/// Whether no parameter stands at `pos`.
pub fn absent_at(input: &[char], pos: usize) -> (b: bool)
    ensures
        b == param_absent(input@, pos as int),
{
    pos >= input.len() || input[pos] == ',' || input[pos] == '^'
}

/// A leading parameter: absent where the input ends or a comma or a caret follows at
/// once, else whatever `parser` reads.
pub fn opt_param<O, P>(parser: P, input: &[char], pos: usize) -> (r: Res<Option<O>>) where
    P: Fn(&[char], usize) -> Res<O>,

    requires
        call_requires(parser, (input, pos)),
    ensures
        param_absent(input@, pos as int) ==> r == Ok::<(usize, Option<O>), Failure>((pos, None)),
        !param_absent(input@, pos as int) ==> match r {
            Ok((next, Some(v))) => call_ensures(parser, (input, pos), Ok((next, v))),
            Ok((_, None)) => false,
            Err(f) => call_ensures(parser, (input, pos), Err(f)),
        },
{
    if absent_at(input, pos) {
        Ok((pos, None))
    } else {
        match parser(input, pos) {
            Ok((next, v)) => Ok((next, Some(v))),
            Err(f) => Err(f),
        }
    }
}

/// A subsequent parameter: a comma, then a leading parameter.
pub fn param<O, P>(parser: P, input: &[char], pos: usize) -> (r: Res<Option<O>>) where
    P: Fn(&[char], usize) -> Res<O>,

    requires
        pos < input@.len() ==> call_requires(parser, (input, (pos + 1) as usize)),
    ensures
        !comma_at(input@, pos as int) ==> plain(r) == soft::<Option<O>>(ErrorKind::Tag, pos as int),
        comma_at(input@, pos as int) && param_absent(input@, pos + 1) ==> r == Ok::<
            (usize, Option<O>),
            Failure,
        >(((pos + 1) as usize, None)),
        comma_at(input@, pos as int) && !param_absent(input@, pos + 1) ==> match r {
            Ok((next, Some(v))) => call_ensures(
                parser,
                (input, (pos + 1) as usize),
                Ok((next, v)),
            ),
            Ok((_, None)) => false,
            Err(f) => call_ensures(parser, (input, (pos + 1) as usize), Err(f)),
        },
{
    if pos < input.len() && input[pos] == ',' {
        opt_param(parser, input, pos + 1)
    } else {
        fail(ErrorKind::Tag, pos)
    }
}

/// Reads a leading number.
pub fn opt_u32(input: &[char], pos: usize) -> (r: Res<Option<u32>>)
    ensures
        plain(r) == spec_opt_u32(input@, pos as int),
        r matches Ok((next, _)) ==> reaches(input@, pos, next),
{
    opt_param(parse_u32, input, pos)
}

/// Reads a leading one-character parameter.
pub fn opt_char(input: &[char], pos: usize) -> (r: Res<Option<char>>)
    ensures
        plain(r) == spec_opt_char(input@, pos as int),
        r matches Ok((next, _)) ==> reaches(input@, pos, next),
{
    opt_param(parse_char, input, pos)
}

/// Reads a subsequent number; where that fails, the parameter is absent and the
/// position stays.
pub fn next_u32(input: &[char], pos: usize) -> (r: (usize, Option<u32>))
    ensures
        (r.0 as int, r.1) == lenient(spec_param_u32(input@, pos as int), pos as int),
        reaches(input@, pos, r.0),
{
    assert(input@.len() == input.len());
    let r = param(parse_u32, input, pos);
    match r {
        Ok(found) => found,
        Err(_) => (pos, None),
    }
}

/// Reads a subsequent one-character parameter; where that fails, the parameter is
/// absent and the position stays.
pub fn next_char(input: &[char], pos: usize) -> (r: (usize, Option<char>))
    ensures
        (r.0 as int, r.1) == lenient(spec_param_char(input@, pos as int), pos as int),
        reaches(input@, pos, r.0),
{
    assert(input@.len() == input.len());
    match param(parse_char, input, pos) {
        Ok(found) => found,
        Err(_) => (pos, None),
    }
}

/// Reads a subsequent decimal number; where that fails, the parameter is absent and
/// the position stays.
pub fn next_f32(input: &[char], pos: usize) -> (r: (usize, Option<String>))
    ensures
        (r.0 as int, opt_chars(r.1)) == lenient(
            spec_param_f32(input@, pos as int),
            pos as int,
        ),
        reaches(input@, pos, r.0),
{
    assert(input@.len() == input.len());
    match param(parse_f32, input, pos) {
        Ok(found) => found,
        Err(_) => (pos, None),
    }
}

/// Reads a pair of coordinates.
pub fn parse_xy(input: &[char], pos: usize) -> (r: Res<(Option<u32>, Option<u32>)>)
    ensures
        plain(r) == spec_parse_xy(input@, pos as int),
        r matches Ok((next, _)) ==> reaches(input@, pos, next),
{
    match opt_u32(input, pos) {
        Ok((after_x, x)) => {
            let (after_y, y) = next_u32(input, after_x);
            Ok((after_y, (x, y)))
        },
        Err(f) => Err(f),
    }
}

/// Any other command: a caret, two characters of code, and the text up to the next
/// caret as its arguments. This is what lets unknown commands pass.
pub open spec fn spec_cmd_unsupported(s: Seq<char>, pos: int) -> SpecRes<CommandView> {
    if !(0 <= pos < s.len() && s[pos] == '^') {
        soft(ErrorKind::Tag, pos)
    } else if pos + 3 > s.len() {
        soft(ErrorKind::Eof, pos + 1)
    } else {
        Ok(
            (
                text_end(s, pos + 3),
                CommandView::UnsupportedCommand {
                    command: s.subrange(pos, pos + 3),
                    args: text_until_caret(s, pos + 3),
                },
            ),
        )
    }
}

/// Matches any command by its shape alone.
pub fn cmd_unsupported(input: &[char], pos: usize) -> (r: Res<Command>)
    ensures
        command_res(r) == spec_cmd_unsupported(input@, pos as int),
        standard::advances(r, input@, pos),
{
    if !(pos < input.len() && input[pos] == '^') {
        return fail(ErrorKind::Tag, pos);
    }
    if input.len() - pos < 3 {
        return fail(ErrorKind::Eof, pos + 1);
    }
    let command = string_of(input, pos, pos + 3);
    let (next, args) = take_text(input, pos + 3);
    Ok((next, Command::UnsupportedCommand { command, args }))
}

/// One command at `pos`. The matchers are tried in a fixed order, the standard commands
/// first, then the extensions, then the catch-all; the first that matches or fails
/// fatally decides.
pub open spec fn spec_command(s: Seq<char>, pos: int) -> SpecRes<CommandView> {
    or_else(
        spec_standard_first(s, pos),
        or_else(spec_standard_second(s, pos), spec_extensions(s, pos)),
    )
}

/// The first group of standard commands, in their order.
pub open spec fn spec_standard_first(s: Seq<char>, pos: int) -> SpecRes<CommandView> {
    or_else(
        standard::spec_cmd_xa(s, pos),
        or_else(
            standard::spec_cmd_xz(s, pos),
            or_else(
                standard::spec_cmd_lh(s, pos),
                or_else(
                    standard::spec_cmd_ll(s, pos),
                    or_else(
                        standard::spec_cmd_fo(s, pos),
                        or_else(
                            standard::spec_cmd_ft(s, pos),
                            or_else(
                                standard::spec_cmd_fs(s, pos),
                                or_else(
                                    standard::spec_cmd_lr(s, pos),
                                    or_else(
                                        standard::spec_cmd_fx(s, pos),
                                        or_else(
                                            standard::spec_cmd_a(s, pos),
                                            or_else(
                                                standard::spec_cmd_cf(s, pos),
                                                or_else(
                                                    standard::spec_cmd_fd(s, pos),
                                                    or_else(
                                                        standard::spec_cmd_fb(s, pos),
                                                        standard::spec_cmd_fr(s, pos),
                                                    ),
                                                ),
                                            ),
                                        ),
                                    ),
                                ),
                            ),
                        ),
                    ),
                ),
            ),
        ),
    )
}

/// The second group of standard commands, in their order.
pub open spec fn spec_standard_second(s: Seq<char>, pos: int) -> SpecRes<CommandView> {
    or_else(
        standard::spec_cmd_gb(s, pos),
        or_else(
            standard::spec_cmd_gc(s, pos),
            or_else(
                standard::spec_cmd_ge(s, pos),
                or_else(
                    standard::spec_cmd_gf(s, pos),
                    or_else(
                        standard::spec_cmd_bq(s, pos),
                        or_else(
                            standard::spec_cmd_b3(s, pos),
                            or_else(
                                standard::spec_cmd_by(s, pos),
                                or_else(standard::spec_cmd_bx(s, pos), standard::spec_cmd_bc(s, pos)),
                            ),
                        ),
                    ),
                ),
            ),
        ),
    )
}

/// The extension commands and the catch-all, in their order.
pub open spec fn spec_extensions(s: Seq<char>, pos: int) -> SpecRes<CommandView> {
    or_else(
        custom::spec_cmd_gic(s, pos),
        or_else(
            custom::spec_cmd_gtc(s, pos),
            or_else(custom::spec_cmd_glc(s, pos), spec_cmd_unsupported(s, pos)),
        ),
    )
}

/// Whether the code of one of the commands that have a matcher of their own stands
/// at `pos`.
pub open spec fn known_code_at(s: Seq<char>, pos: int) -> bool {
    ||| standard::font_code_at(s, pos)
    ||| custom::long_code_at(s, pos, 'G', 'I', 'C')
    ||| custom::long_code_at(s, pos, 'G', 'T', 'C')
    ||| custom::long_code_at(s, pos, 'G', 'L', 'C')
    ||| exists|a: char, b: char| #[trigger] standard::code_at(s, pos, a, b) && is_known_code(a, b)
}

/// The two-letter codes of the standard commands.
pub open spec fn is_known_code(a: char, b: char) -> bool {
    ||| a == 'X' && (b == 'A' || b == 'Z')
    ||| a == 'L' && (b == 'H' || b == 'L' || b == 'R')
    ||| a == 'F' && (b == 'O' || b == 'T' || b == 'S' || b == 'X' || b == 'D' || b == 'B' || b
        == 'R')
    ||| a == 'C' && b == 'F'
    ||| a == 'G' && (b == 'B' || b == 'C' || b == 'E' || b == 'F')
    ||| a == 'B' && (b == 'Q' || b == '3' || b == 'Y' || b == 'X' || b == 'C')
}

/// **Unknown commands pass through.** A caret with two more characters that are the
/// code of no command with a matcher of its own is read as an unsupported command: its
/// code is the three characters, its arguments are the trimmed text up to the next
/// caret, and reading goes on at that caret.
pub proof fn lemma_unknown_code_passes_through(s: Seq<char>, pos: int)
    requires
        0 <= pos,
        pos + 3 <= s.len(),
        s[pos] == '^',
        !known_code_at(s, pos),
    ensures
        spec_command(s, pos) == Ok::<(int, CommandView), FailureView>(
            (
                text_end(s, pos + 3),
                CommandView::UnsupportedCommand {
                    command: s.subrange(pos, pos + 3),
                    args: text_until_caret(s, pos + 3),
                },
            ),
        ),
{
    assert forall|x: char, y: char| is_known_code(x, y) implies !standard::code_at(s, pos, x, y) by {
        if standard::code_at(s, pos, x, y) {
            assert(known_code_at(s, pos));
        }
    }
}

/// **Unknown commands pass.** Wherever a caret and two more characters stand, some
/// matcher accepts the command or fails fatally on its parameters: no command is refused
/// for its code alone.
pub proof fn lemma_every_code_is_accepted(s: Seq<char>, pos: int)
    requires
        0 <= pos,
        pos + 3 <= s.len(),
        s[pos] == '^',
    ensures
        !(spec_command(s, pos) matches Err(f) && !f.fatal),
        spec_cmd_unsupported(s, pos) is Ok,
{
}

/// Whether a result ends the alternation: a match or a fatal failure.
pub fn settles(r: &Res<Command>) -> (b: bool)
    ensures
        b == !(r matches Err(f) && !f.fatal),
{
    match r {
        Ok(_) => true,
        Err(f) => f.fatal,
    }
}

/// Matches one of the first group of standard commands.
pub fn standard_first(input: &[char], pos: usize) -> (r: Res<Command>)
    ensures
        command_res(r) == spec_standard_first(input@, pos as int),
        standard::advances(r, input@, pos),
{
    let r = standard::cmd_xa(input, pos);
    if settles(&r) {
        return r;
    }
    let r = standard::cmd_xz(input, pos);
    if settles(&r) {
        return r;
    }
    let r = standard::cmd_lh(input, pos);
    if settles(&r) {
        return r;
    }
    let r = standard::cmd_ll(input, pos);
    if settles(&r) {
        return r;
    }
    let r = standard::cmd_fo(input, pos);
    if settles(&r) {
        return r;
    }
    let r = standard::cmd_ft(input, pos);
    if settles(&r) {
        return r;
    }
    let r = standard::cmd_fs(input, pos);
    if settles(&r) {
        return r;
    }
    let r = standard::cmd_lr(input, pos);
    if settles(&r) {
        return r;
    }
    let r = standard::cmd_fx(input, pos);
    if settles(&r) {
        return r;
    }
    let r = standard::cmd_a(input, pos);
    if settles(&r) {
        return r;
    }
    let r = standard::cmd_cf(input, pos);
    if settles(&r) {
        return r;
    }
    let r = standard::cmd_fd(input, pos);
    if settles(&r) {
        return r;
    }
    let r = standard::cmd_fb(input, pos);
    if settles(&r) {
        return r;
    }
    standard::cmd_fr(input, pos)
}

/// Matches one of the second group of standard commands.
pub fn standard_second(input: &[char], pos: usize) -> (r: Res<Command>)
    ensures
        command_res(r) == spec_standard_second(input@, pos as int),
        standard::advances(r, input@, pos),
{
    let r = standard::cmd_gb(input, pos);
    if settles(&r) {
        return r;
    }
    let r = standard::cmd_gc(input, pos);
    if settles(&r) {
        return r;
    }
    let r = standard::cmd_ge(input, pos);
    if settles(&r) {
        return r;
    }
    let r = standard::cmd_gf(input, pos);
    if settles(&r) {
        return r;
    }
    let r = standard::cmd_bq(input, pos);
    if settles(&r) {
        return r;
    }
    let r = standard::cmd_b3(input, pos);
    if settles(&r) {
        return r;
    }
    let r = standard::cmd_by(input, pos);
    if settles(&r) {
        return r;
    }
    let r = standard::cmd_bx(input, pos);
    if settles(&r) {
        return r;
    }
    standard::cmd_bc(input, pos)
}

/// Matches one of the extension commands, or any command by its shape.
pub fn extensions(input: &[char], pos: usize) -> (r: Res<Command>)
    ensures
        command_res(r) == spec_extensions(input@, pos as int),
        standard::advances(r, input@, pos),
{
    let r = custom::cmd_gic(input, pos);
    if settles(&r) {
        return r;
    }
    let r = custom::cmd_gtc(input, pos);
    if settles(&r) {
        return r;
    }
    let r = custom::cmd_glc(input, pos);
    if settles(&r) {
        return r;
    }
    cmd_unsupported(input, pos)
}

/// Matches one command at `pos`.
pub fn command(input: &[char], pos: usize) -> (r: Res<Command>)
    ensures
        command_res(r) == spec_command(input@, pos as int),
        standard::advances(r, input@, pos),
{
    let r = standard_first(input, pos);
    if settles(&r) {
        return r;
    }
    let r = standard_second(input, pos);
    if settles(&r) {
        return r;
    }
    extensions(input, pos)
}

/// The commands from `pos` to the end of the input, where `pos` holds the first
/// character of a command. Input that no matcher accepts is left over, which is
/// reported as an end-of-input failure at `anchor`.
pub open spec fn spec_commands_from(s: Seq<char>, pos: int, anchor: int) -> Result<
    Seq<CommandView>,
    FailureView,
>
    decreases s.len() - pos,
{
    match spec_command(s, pos) {
        Ok((next, cmd)) => {
            let rest = skip_spaces(s, next);
            if pos < rest < s.len() {
                match spec_commands_from(s, rest, rest) {
                    Ok(more) => Ok(seq![cmd] + more),
                    Err(f) => Err(f),
                }
            } else {
                Ok(seq![cmd])
            }
        },
        Err(f) => if f.fatal {
            Err(f)
        } else {
            Err(FailureView { kind: ErrorKind::Eof, at: anchor, fatal: false })
        },
    }
}

/// The commands of a whole text. White space before, between and after commands does
/// not count, and a text of white space alone holds no commands. Left-over input
/// before the first command is reported at the start of the text, later left-over
/// input where it begins.
pub open spec fn spec_commands(s: Seq<char>) -> Result<Seq<CommandView>, FailureView> {
    let start = skip_spaces(s, 0);
    if start >= s.len() {
        Ok(Seq::empty())
    } else {
        spec_commands_from(s, start, 0)
    }
}

/// The value of a list of commands or a failure.
pub open spec fn commands_res(r: Result<Vec<Command>, Failure>) -> Result<
    Seq<CommandView>,
    FailureView,
> {
    match r {
        Ok(commands) => Ok(crate::ast::cmd::command_views(commands@)),
        Err(f) => Err(f@),
    }
}

/// `head` in front of the commands of a result.
pub open spec fn after<T>(head: Seq<T>, r: Result<Seq<T>, FailureView>) -> Result<
    Seq<T>,
    FailureView,
> {
    match r {
        Ok(more) => Ok(head + more),
        Err(f) => Err(f),
    }
}

/// Reads all commands of the input.
pub fn parse_commands(input: &[char]) -> (r: Result<Vec<Command>, Failure>)
    ensures
        commands_res(r) == spec_commands(input@),
{
    let mut commands: Vec<Command> = Vec::new();
    let ghost s = input@;
    let start = skip_whitespace(input, 0);
    if start >= input.len() {
        assert(crate::ast::cmd::command_views(commands@) =~= Seq::empty());
        return Ok(commands);
    }
    let mut pos = start;
    let mut anchor: usize = 0;
    loop
        invariant
            s == input@,
            pos < input@.len(),
            after(
                crate::ast::cmd::command_views(commands@),
                spec_commands_from(s, pos as int, anchor as int),
            ) == spec_commands(s),
        decreases input@.len() - pos,
    {
        let ghost done = crate::ast::cmd::command_views(commands@);
        match command(input, pos) {
            Ok((next, cmd)) => {
                let ghost view = cmd@;
                commands.push(cmd);
                assert(crate::ast::cmd::command_views(commands@) =~= done + seq![view]);
                let rest = skip_whitespace(input, next);
                if rest >= input.len() {
                    return Ok(commands);
                }
                proof {
                    match spec_commands_from(s, rest as int, rest as int) {
                        Ok(more) => {
                            assert(done + (seq![view] + more) =~= (done + seq![view]) + more);
                        },
                        Err(_) => {},
                    }
                }
                pos = rest;
                anchor = rest;
            },
            Err(f) => {
                if f.fatal {
                    return Err(f);
                } else {
                    return Err(Failure { kind: ErrorKind::Eof, at: anchor, fatal: false });
                }
            },
        }
    }
}

/// The number of line feeds among the first `n` characters.
pub open spec fn newlines_before(s: Seq<char>, n: int) -> nat
    decreases n,
{
    if 0 < n <= s.len() {
        newlines_before(s, n - 1) + if s[n - 1] == '\n' {
            1nat
        } else {
            0nat
        }
    } else {
        0
    }
}

/// The line, counted from 1, that holds position `at`: one more than the number of
/// line feeds before it. A position beyond the input counts as its end, and the line
/// number stops at the largest number the machine can hold.
pub open spec fn line_of(s: Seq<char>, at: int) -> nat {
    let end = if at > s.len() {
        s.len() as int
    } else {
        at
    };
    if newlines_before(s, end) >= usize::MAX {
        usize::MAX as nat
    } else {
        newlines_before(s, end) + 1
    }
}

/// The name of a failure kind, as it appears in diagnostics.
pub open spec fn kind_name(kind: ErrorKind) -> Seq<char> {
    match kind {
        ErrorKind::Tag => "Tag"@,
        ErrorKind::Digit => "Digit"@,
        ErrorKind::NoneOf => "NoneOf"@,
        ErrorKind::MapRes => "MapRes"@,
        ErrorKind::Eof => "Eof"@,
    }
}

/// The diagnostic for a failure: the line on which it happened and a message that
/// names the kind of token that was expected there.
pub open spec fn diagnostic(s: Seq<char>, f: FailureView) -> ZplErrorView {
    ZplErrorView::ParseError {
        line: line_of(s, f.at),
        message: "Invalid or malformed ZPL command (Error code: "@ + kind_name(f.kind) + ")"@,
    }
}

/// What a text parses to: its commands, or the diagnostic of the first failure.
pub open spec fn parsed(s: Seq<char>) -> Result<Seq<CommandView>, ZplErrorView> {
    match spec_commands(s) {
        Ok(commands) => Ok(commands),
        Err(f) => Err(diagnostic(s, f)),
    }
}

/// The value of a parse result.
pub open spec fn parse_view(r: ZplResult<Vec<Command>>) -> Result<Seq<CommandView>, ZplErrorView> {
    match r {
        Ok(commands) => Ok(crate::ast::cmd::command_views(commands@)),
        Err(e) => Err(e@),
    }
}

/// The line, counted from 1, that holds position `at`.
pub fn line_number(input: &[char], at: usize) -> (line: usize)
    ensures
        line == line_of(input@, at as int),
{
    let end = if at > input.len() {
        input.len()
    } else {
        at
    };
    let mut count: usize = 0;
    let mut i: usize = 0;
    while i < end
        invariant
            i <= end <= input@.len(),
            count == newlines_before(input@, i as int),
            count <= i,
        decreases end - i,
    {
        if input[i] == '\n' {
            count += 1;
        }
        i += 1;
    }
    if count == usize::MAX {
        count
    } else {
        count + 1
    }
}

/// The diagnostic for a failure.
pub fn describe(input: &[char], f: Failure) -> (e: ZplError)
    ensures
        e@ == diagnostic(input@, f@),
{
    let line = line_number(input, f.at);
    let mut message = String::new();
    push_str(&mut message, "Invalid or malformed ZPL command (Error code: ");
    match f.kind {
        ErrorKind::Tag => push_str(&mut message, "Tag"),
        ErrorKind::Digit => push_str(&mut message, "Digit"),
        ErrorKind::NoneOf => push_str(&mut message, "NoneOf"),
        ErrorKind::MapRes => push_str(&mut message, "MapRes"),
        ErrorKind::Eof => push_str(&mut message, "Eof"),
    }
    push_str(&mut message, ")");
    ZplError::ParseError { line, message }
}

/// Parses a label text into its commands.
///
/// Succeeds exactly when the whole text, apart from white space, is a sequence of
/// commands; the result is then [`parsed`] of the text. On failure the error names the
/// line of the first place where the grammar gave up.
pub fn parse_zpl(input: &str) -> (r: ZplResult<Vec<Command>>)
    ensures
        parse_view(r) == parsed(input@),
{
    let chars = chars_of(input);
    match parse_commands(chars.as_slice()) {
        Ok(commands) => Ok(commands),
        Err(f) => Err(describe(chars.as_slice(), f)),
    }
}

} // verus!
