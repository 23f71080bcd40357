//! The matchers of the extension commands: colour images and colours for text and lines.

use vstd::prelude::*;
use crate::ast::cmd::{Command, CommandView};
use super::standard::advances;
use super::{
    command_res, comma_at, cut, fail, fatal, parse_u32, soft, spec_parse_u32, take_text, text_end,
    text_until_caret, ErrorKind, Failure, FailureView, Res, SpecRes, param_absent,
};

verus! {

/// Whether a caret followed by the letters `a`, `b` and `c` stands at `pos`.
pub open spec fn long_code_at(s: Seq<char>, pos: int, a: char, b: char, c: char) -> bool {
    &&& 0 <= pos
    &&& pos + 4 <= s.len()
    &&& s[pos] == '^'
    &&& s[pos + 1] == a
    &&& s[pos + 2] == b
    &&& s[pos + 3] == c
}

/// Whether a caret followed by the letters `a`, `b` and `c` stands at `pos`.
pub fn has_long_code(input: &[char], pos: usize, a: char, b: char, c: char) -> (found: bool)
    ensures
        found == long_code_at(input@, pos as int, a, b, c),
        found ==> pos + 4 <= usize::MAX,
{
    pos < input.len() && input.len() - pos >= 4 && input[pos] == '^' && input[pos + 1] == a
        && input[pos + 2] == b && input[pos + 3] == c
}

/// A fatal failure of the given kind at `at`.
pub open spec fn hard<T>(kind: ErrorKind, at: int) -> SpecRes<T> {
    Err(FailureView { kind, at, fatal: true })
}

/// The mandatory second number of a colour image: a comma and a number. A missing comma,
/// a missing number and an unreadable number are all fatal, each at its own place.
pub open spec fn spec_mandatory_height(s: Seq<char>, pos: int) -> SpecRes<u32> {
    if !comma_at(s, pos) {
        hard(ErrorKind::Tag, pos)
    } else if param_absent(s, pos + 1) {
        hard(ErrorKind::MapRes, pos)
    } else {
        cut(spec_parse_u32(s, pos + 1))
    }
}

/// `^GIC`: a colour image. Width, height and payload are all mandatory and separated by
/// commas; the payload runs up to the next caret, is trimmed, and must not be empty.
/// Whatever is missing or unreadable fails fatally, at the place where it was expected.
pub open spec fn spec_cmd_gic(s: Seq<char>, pos: int) -> SpecRes<CommandView> {
    if long_code_at(s, pos, 'G', 'I', 'C') {
        match cut(spec_parse_u32(s, pos + 4)) {
            Ok((q1, width)) => match spec_mandatory_height(s, q1) {
                Ok((q2, height)) => if !comma_at(s, q2) {
                    hard(ErrorKind::Tag, q2)
                } else if text_until_caret(s, q2 + 1).len() == 0 {
                    hard(ErrorKind::MapRes, q2 + 1)
                } else {
                    Ok(
                        (
                            text_end(s, q2 + 1),
                            CommandView::CustomImage {
                                width,
                                height,
                                data: text_until_caret(s, q2 + 1),
                            },
                        ),
                    )
                },
                Err(f) => Err(f),
            },
            Err(f) => Err(f),
        }
    } else {
        soft(ErrorKind::Tag, pos)
    }
}

/// Matches `^GIC`: a colour image.
pub fn cmd_gic(input: &[char], pos: usize) -> (r: Res<Command>)
    ensures
        command_res(r) == spec_cmd_gic(input@, pos as int),
        advances(r, input@, pos),
{
    if !has_long_code(input, pos, 'G', 'I', 'C') {
        return fail(ErrorKind::Tag, pos);
    }
    let (q1, width) = match parse_u32(input, pos + 4) {
        Ok(found) => found,
        Err(f) => {
            return Err(fatal(f));
        },
    };
    if !(q1 < input.len() && input[q1] == ',') {
        return Err(Failure { kind: ErrorKind::Tag, at: q1, fatal: true });
    }
    if super::absent_at(input, q1 + 1) {
        return Err(Failure { kind: ErrorKind::MapRes, at: q1, fatal: true });
    }
    let (q2, height) = match parse_u32(input, q1 + 1) {
        Ok(found) => found,
        Err(f) => {
            return Err(fatal(f));
        },
    };
    if !(q2 < input.len() && input[q2] == ',') {
        return Err(Failure { kind: ErrorKind::Tag, at: q2, fatal: true });
    }
    let (next, data) = take_text(input, q2 + 1);
    if data.as_str().is_empty() {
        return Err(Failure { kind: ErrorKind::MapRes, at: q2 + 1, fatal: true });
    }
    Ok((next, Command::CustomImage { width, height, data }))
}

/// `^GTC`: the colour of the following text, up to the next caret and trimmed.
pub open spec fn spec_cmd_gtc(s: Seq<char>, pos: int) -> SpecRes<CommandView> {
    if long_code_at(s, pos, 'G', 'T', 'C') {
        Ok(
            (
                text_end(s, pos + 4),
                CommandView::GraphicTextColor { color: text_until_caret(s, pos + 4) },
            ),
        )
    } else {
        soft(ErrorKind::Tag, pos)
    }
}

/// Matches `^GTC`: the colour of the following text.
pub fn cmd_gtc(input: &[char], pos: usize) -> (r: Res<Command>)
    ensures
        command_res(r) == spec_cmd_gtc(input@, pos as int),
        advances(r, input@, pos),
{
    if !has_long_code(input, pos, 'G', 'T', 'C') {
        return fail(ErrorKind::Tag, pos);
    }
    let (next, color) = take_text(input, pos + 4);
    Ok((next, Command::GraphicTextColor { color }))
}

/// `^GLC`: the colour of the following graphics, up to the next caret and trimmed.
pub open spec fn spec_cmd_glc(s: Seq<char>, pos: int) -> SpecRes<CommandView> {
    if long_code_at(s, pos, 'G', 'L', 'C') {
        Ok(
            (
                text_end(s, pos + 4),
                CommandView::GraphicLineColor { color: text_until_caret(s, pos + 4) },
            ),
        )
    } else {
        soft(ErrorKind::Tag, pos)
    }
}

/// Matches `^GLC`: the colour of the following graphics.
pub fn cmd_glc(input: &[char], pos: usize) -> (r: Res<Command>)
    ensures
        command_res(r) == spec_cmd_glc(input@, pos as int),
        advances(r, input@, pos),
{
    if !has_long_code(input, pos, 'G', 'L', 'C') {
        return fail(ErrorKind::Tag, pos);
    }
    let (next, color) = take_text(input, pos + 4);
    Ok((next, Command::GraphicLineColor { color }))
}

} // verus!
