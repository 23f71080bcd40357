//! The matchers of the standard commands.
//!
//! Each matcher first looks for its code. Without the code it fails softly at once. After
//! the code, a parameter that the command cannot do without fails fatally when it is
//! missing or unreadable; optional parameters that cannot be read are simply absent.

use vstd::prelude::*;
use crate::ast::cmd::{Command, CommandView};
use crate::ast::commons::{justification_of, yes_no_of, Justification, YesNo};
use super::{
    command_res, comma_at, cut, fail, fatal, lenient, next_char, next_f32, next_u32, opt_char,
    opt_u32, parse_char, parse_u32, parse_xy, soft, spec_opt_char, spec_opt_u32,
    spec_param_char, spec_param_f32, spec_param_u32, spec_parse_char, spec_parse_u32,
    spec_parse_xy, take_text, text_end, text_until_caret, ErrorKind, Res, SpecRes,
};

verus! {

/// Whether a caret followed by the letters `a` and `b` stands at `pos`.
pub open spec fn code_at(s: Seq<char>, pos: int, a: char, b: char) -> bool {
    &&& 0 <= pos
    &&& pos + 3 <= s.len()
    &&& s[pos] == '^'
    &&& s[pos + 1] == a
    &&& s[pos + 2] == b
}

/// Whether a caret followed by the letters `a` and `b` stands at `pos`.
pub fn has_code(input: &[char], pos: usize, a: char, b: char) -> (found: bool)
    ensures
        found == code_at(input@, pos as int, a, b),
        found ==> pos + 3 <= usize::MAX,
{
    pos < input.len() && input.len() - pos >= 3 && input[pos] == '^' && input[pos + 1] == a
        && input[pos + 2] == b
}

/// A matcher that yields a command moves forward and stays inside the input.
pub open spec fn advances(r: Res<Command>, s: Seq<char>, pos: usize) -> bool {
    r matches Ok((next, _)) ==> pos < next <= s.len()
}

/// The switch that an optional letter stands for.
pub open spec fn yes_no_option(letter: Option<char>) -> Option<YesNo> {
    match letter {
        Some(c) => Some(yes_no_of(c)),
        None => None,
    }
}

/// The justification that an optional letter stands for.
pub open spec fn justification_option(letter: Option<char>) -> Option<Justification> {
    match letter {
        Some(c) => Some(justification_of(c)),
        None => None,
    }
}

/// `^XA`: the start of a label format.
pub open spec fn spec_cmd_xa(s: Seq<char>, pos: int) -> SpecRes<CommandView> {
    if code_at(s, pos, 'X', 'A') {
        Ok((pos + 3, CommandView::StartFormat))
    } else {
        soft(ErrorKind::Tag, pos)
    }
}

/// Matches `^XA`: the start of a label format.
pub fn cmd_xa(input: &[char], pos: usize) -> (r: Res<Command>)
    ensures
        command_res(r) == spec_cmd_xa(input@, pos as int),
        advances(r, input@, pos),
{
    if has_code(input, pos, 'X', 'A') {
        Ok((pos + 3, Command::StartFormat))
    } else {
        fail(ErrorKind::Tag, pos)
    }
}

/// `^XZ`: the end of a label format.
pub open spec fn spec_cmd_xz(s: Seq<char>, pos: int) -> SpecRes<CommandView> {
    if code_at(s, pos, 'X', 'Z') {
        Ok((pos + 3, CommandView::EndFormat))
    } else {
        soft(ErrorKind::Tag, pos)
    }
}

/// Matches `^XZ`: the end of a label format.
pub fn cmd_xz(input: &[char], pos: usize) -> (r: Res<Command>)
    ensures
        command_res(r) == spec_cmd_xz(input@, pos as int),
        advances(r, input@, pos),
{
    if has_code(input, pos, 'X', 'Z') {
        Ok((pos + 3, Command::EndFormat))
    } else {
        fail(ErrorKind::Tag, pos)
    }
}

/// `^LH`: the home position of the label. The coordinates follow the code; an unreadable first
/// coordinate is fatal.
pub open spec fn spec_cmd_lh(s: Seq<char>, pos: int) -> SpecRes<CommandView> {
    if code_at(s, pos, 'L', 'H') {
        match cut(spec_parse_xy(s, pos + 3)) {
            Ok((next, (x, y))) => Ok((next, CommandView::LabelHome { x, y })),
            Err(f) => Err(f),
        }
    } else {
        soft(ErrorKind::Tag, pos)
    }
}

/// Matches `^LH`: the home position of the label.
pub fn cmd_lh(input: &[char], pos: usize) -> (r: Res<Command>)
    ensures
        command_res(r) == spec_cmd_lh(input@, pos as int),
        advances(r, input@, pos),
{
    if !has_code(input, pos, 'L', 'H') {
        return fail(ErrorKind::Tag, pos);
    }
    match parse_xy(input, pos + 3) {
        Ok((next, (x, y))) => Ok((next, Command::LabelHome { x, y })),
        Err(f) => Err(fatal(f)),
    }
}

/// `^LL`: the length of the label. An unreadable length is fatal.
pub open spec fn spec_cmd_ll(s: Seq<char>, pos: int) -> SpecRes<CommandView> {
    if code_at(s, pos, 'L', 'L') {
        match cut(spec_opt_u32(s, pos + 3)) {
            Ok((next, length)) => Ok((next, CommandView::LabelLength { length })),
            Err(f) => Err(f),
        }
    } else {
        soft(ErrorKind::Tag, pos)
    }
}

/// Matches `^LL`: the length of the label.
pub fn cmd_ll(input: &[char], pos: usize) -> (r: Res<Command>)
    ensures
        command_res(r) == spec_cmd_ll(input@, pos as int),
        advances(r, input@, pos),
{
    if !has_code(input, pos, 'L', 'L') {
        return fail(ErrorKind::Tag, pos);
    }
    match opt_u32(input, pos + 3) {
        Ok((next, length)) => Ok((next, Command::LabelLength { length })),
        Err(f) => Err(fatal(f)),
    }
}

/// `^FO`: the origin of the next field. The coordinates follow the code; an unreadable first
/// coordinate is fatal.
pub open spec fn spec_cmd_fo(s: Seq<char>, pos: int) -> SpecRes<CommandView> {
    if code_at(s, pos, 'F', 'O') {
        match cut(spec_parse_xy(s, pos + 3)) {
            Ok((next, (x, y))) => Ok((next, CommandView::FieldOrigin { x, y })),
            Err(f) => Err(f),
        }
    } else {
        soft(ErrorKind::Tag, pos)
    }
}

/// Matches `^FO`: the origin of the next field.
pub fn cmd_fo(input: &[char], pos: usize) -> (r: Res<Command>)
    ensures
        command_res(r) == spec_cmd_fo(input@, pos as int),
        advances(r, input@, pos),
{
    if !has_code(input, pos, 'F', 'O') {
        return fail(ErrorKind::Tag, pos);
    }
    match parse_xy(input, pos + 3) {
        Ok((next, (x, y))) => Ok((next, Command::FieldOrigin { x, y })),
        Err(f) => Err(fatal(f)),
    }
}

/// `^FT`: a typeset offset for the next field. The coordinates follow the code; an unreadable first
/// coordinate is fatal.
pub open spec fn spec_cmd_ft(s: Seq<char>, pos: int) -> SpecRes<CommandView> {
    if code_at(s, pos, 'F', 'T') {
        match cut(spec_parse_xy(s, pos + 3)) {
            Ok((next, (x, y))) => Ok((next, CommandView::FieldTypeset { x, y })),
            Err(f) => Err(f),
        }
    } else {
        soft(ErrorKind::Tag, pos)
    }
}

/// Matches `^FT`: a typeset offset for the next field.
pub fn cmd_ft(input: &[char], pos: usize) -> (r: Res<Command>)
    ensures
        command_res(r) == spec_cmd_ft(input@, pos as int),
        advances(r, input@, pos),
{
    if !has_code(input, pos, 'F', 'T') {
        return fail(ErrorKind::Tag, pos);
    }
    match parse_xy(input, pos + 3) {
        Ok((next, (x, y))) => Ok((next, Command::FieldTypeset { x, y })),
        Err(f) => Err(fatal(f)),
    }
}

/// `^FS`: the end of a field.
pub open spec fn spec_cmd_fs(s: Seq<char>, pos: int) -> SpecRes<CommandView> {
    if code_at(s, pos, 'F', 'S') {
        Ok((pos + 3, CommandView::FieldSeparator))
    } else {
        soft(ErrorKind::Tag, pos)
    }
}

/// Matches `^FS`: the end of a field.
pub fn cmd_fs(input: &[char], pos: usize) -> (r: Res<Command>)
    ensures
        command_res(r) == spec_cmd_fs(input@, pos as int),
        advances(r, input@, pos),
{
    if has_code(input, pos, 'F', 'S') {
        Ok((pos + 3, Command::FieldSeparator))
    } else {
        fail(ErrorKind::Tag, pos)
    }
}

/// `^LR`: whether the whole label prints in reverse. An unreadable letter is fatal.
pub open spec fn spec_cmd_lr(s: Seq<char>, pos: int) -> SpecRes<CommandView> {
    if code_at(s, pos, 'L', 'R') {
        match cut(spec_opt_char(s, pos + 3)) {
            Ok((next, letter)) => Ok(
                (next, CommandView::LabelReverse { reverse: yes_no_option(letter) }),
            ),
            Err(f) => Err(f),
        }
    } else {
        soft(ErrorKind::Tag, pos)
    }
}

/// Matches `^LR`: whether the whole label prints in reverse.
pub fn cmd_lr(input: &[char], pos: usize) -> (r: Res<Command>)
    ensures
        command_res(r) == spec_cmd_lr(input@, pos as int),
        advances(r, input@, pos),
{
    if !has_code(input, pos, 'L', 'R') {
        return fail(ErrorKind::Tag, pos);
    }
    match opt_char(input, pos + 3) {
        Ok((next, letter)) => {
            let reverse = match letter {
                Some(c) => Some(YesNo::from(c)),
                None => None,
            };
            Ok((next, Command::LabelReverse { reverse }))
        },
        Err(f) => Err(fatal(f)),
    }
}

/// `^FX`: a comment. The text runs up to the next caret and is trimmed.
pub open spec fn spec_cmd_fx(s: Seq<char>, pos: int) -> SpecRes<CommandView> {
    if code_at(s, pos, 'F', 'X') {
        Ok(
            (
                text_end(s, pos + 3),
                CommandView::Comment { text: text_until_caret(s, pos + 3) },
            ),
        )
    } else {
        soft(ErrorKind::Tag, pos)
    }
}

/// Matches `^FX`: a comment.
pub fn cmd_fx(input: &[char], pos: usize) -> (r: Res<Command>)
    ensures
        command_res(r) == spec_cmd_fx(input@, pos as int),
        advances(r, input@, pos),
{
    if !has_code(input, pos, 'F', 'X') {
        return fail(ErrorKind::Tag, pos);
    }
    let (next, text) = take_text(input, pos + 3);
    Ok((next, Command::Comment { text }))
}

/// Whether a caret followed by `A` stands at `pos`.
pub open spec fn font_code_at(s: Seq<char>, pos: int) -> bool {
    0 <= pos && pos + 2 <= s.len() && s[pos] == '^' && s[pos + 1] == 'A'
}

/// `^A`: the font of the next text. The font letter follows the code at once and is
/// mandatory: without it the command fails fatally. The orientation is a leading
/// parameter without a comma of its own; height and width follow after commas.
pub open spec fn spec_cmd_a(s: Seq<char>, pos: int) -> SpecRes<CommandView> {
    if font_code_at(s, pos) {
        match cut(spec_parse_char(s, pos + 2)) {
            Ok((after_font, font_name)) => match spec_opt_char(s, after_font) {
                Ok((after_orientation, orientation)) => {
                    let (after_height, height) = lenient(
                        spec_param_u32(s, after_orientation),
                        after_orientation,
                    );
                    let (next, width) = lenient(spec_param_u32(s, after_height), after_height);
                    Ok((next, CommandView::FontSpecFull { font_name, orientation, height, width }))
                },
                Err(f) => Err(f),
            },
            Err(f) => Err(f),
        }
    } else {
        soft(ErrorKind::Tag, pos)
    }
}

/// Matches `^A`: the font of the next text.
pub fn cmd_a(input: &[char], pos: usize) -> (r: Res<Command>)
    ensures
        command_res(r) == spec_cmd_a(input@, pos as int),
        advances(r, input@, pos),
{
    let here = pos < input.len() && input.len() - pos >= 2 && input[pos] == '^' && input[pos
        + 1] == 'A';
    if !here {
        return fail(ErrorKind::Tag, pos);
    }
    let (after_font, font_name) = match parse_char(input, pos + 2) {
        Ok(found) => found,
        Err(f) => {
            return Err(fatal(f));
        },
    };
    let (after_orientation, orientation) = match opt_char(input, after_font) {
        Ok(found) => found,
        Err(f) => {
            return Err(f);
        },
    };
    let (after_height, height) = next_u32(input, after_orientation);
    let (next, width) = next_u32(input, after_height);
    Ok((next, Command::FontSpecFull { font_name, orientation, height, width }))
}

/// `^CF`: the default font. The font letter is mandatory: without it the command
/// fails fatally. Height and width follow after commas.
pub open spec fn spec_cmd_cf(s: Seq<char>, pos: int) -> SpecRes<CommandView> {
    if code_at(s, pos, 'C', 'F') {
        match cut(spec_parse_char(s, pos + 3)) {
            Ok((after_font, font_name)) => {
                let (after_height, height) = lenient(spec_param_u32(s, after_font), after_font);
                let (next, width) = lenient(spec_param_u32(s, after_height), after_height);
                Ok((next, CommandView::FontSpec { font_name, height, width }))
            },
            Err(f) => Err(f),
        }
    } else {
        soft(ErrorKind::Tag, pos)
    }
}

/// Matches `^CF`: the default font.
pub fn cmd_cf(input: &[char], pos: usize) -> (r: Res<Command>)
    ensures
        command_res(r) == spec_cmd_cf(input@, pos as int),
        advances(r, input@, pos),
{
    if !has_code(input, pos, 'C', 'F') {
        return fail(ErrorKind::Tag, pos);
    }
    let (after_font, font_name) = match parse_char(input, pos + 3) {
        Ok(found) => found,
        Err(f) => {
            return Err(fatal(f));
        },
    };
    let (after_height, height) = next_u32(input, after_font);
    let (next, width) = next_u32(input, after_height);
    Ok((next, Command::FontSpec { font_name, height, width }))
}

/// `^FD`: the data of the field. The text runs up to the next caret and is trimmed.
pub open spec fn spec_cmd_fd(s: Seq<char>, pos: int) -> SpecRes<CommandView> {
    if code_at(s, pos, 'F', 'D') {
        Ok(
            (
                text_end(s, pos + 3),
                CommandView::FieldData { data: text_until_caret(s, pos + 3) },
            ),
        )
    } else {
        soft(ErrorKind::Tag, pos)
    }
}

/// Matches `^FD`: the data of the field.
pub fn cmd_fd(input: &[char], pos: usize) -> (r: Res<Command>)
    ensures
        command_res(r) == spec_cmd_fd(input@, pos as int),
        advances(r, input@, pos),
{
    if !has_code(input, pos, 'F', 'D') {
        return fail(ErrorKind::Tag, pos);
    }
    let (next, data) = take_text(input, pos + 3);
    Ok((next, Command::FieldData { data }))
}

/// `^FB`: a text block. An unreadable width is fatal; the other parameters follow
/// after commas.
pub open spec fn spec_cmd_fb(s: Seq<char>, pos: int) -> SpecRes<CommandView> {
    if code_at(s, pos, 'F', 'B') {
        match cut(spec_opt_u32(s, pos + 3)) {
            Ok((q1, width)) => {
                let (q2, max_lines) = lenient(spec_param_u32(s, q1), q1);
                let (q3, line_spacing) = lenient(spec_param_u32(s, q2), q2);
                let (q4, letter) = lenient(spec_param_char(s, q3), q3);
                let (next, indent) = lenient(spec_param_u32(s, q4), q4);
                Ok(
                    (
                        next,
                        CommandView::FieldBlock {
                            width,
                            max_lines,
                            line_spacing,
                            justification: justification_option(letter),
                            indent,
                        },
                    ),
                )
            },
            Err(f) => Err(f),
        }
    } else {
        soft(ErrorKind::Tag, pos)
    }
}

/// Matches `^FB`: a text block.
pub fn cmd_fb(input: &[char], pos: usize) -> (r: Res<Command>)
    ensures
        command_res(r) == spec_cmd_fb(input@, pos as int),
        advances(r, input@, pos),
{
    if !has_code(input, pos, 'F', 'B') {
        return fail(ErrorKind::Tag, pos);
    }
    let (q1, width) = match opt_u32(input, pos + 3) {
        Ok(found) => found,
        Err(f) => {
            return Err(fatal(f));
        },
    };
    let (q2, max_lines) = next_u32(input, q1);
    let (q3, line_spacing) = next_u32(input, q2);
    let (q4, letter) = next_char(input, q3);
    let (next, indent) = next_u32(input, q4);
    let justification = match letter {
        Some(c) => Some(Justification::from(c)),
        None => None,
    };
    Ok((next, Command::FieldBlock { width, max_lines, line_spacing, justification, indent }))
}

/// `^FR`: the field prints in reverse.
pub open spec fn spec_cmd_fr(s: Seq<char>, pos: int) -> SpecRes<CommandView> {
    if code_at(s, pos, 'F', 'R') {
        Ok((pos + 3, CommandView::FieldReverse))
    } else {
        soft(ErrorKind::Tag, pos)
    }
}

/// Matches `^FR`: the field prints in reverse.
pub fn cmd_fr(input: &[char], pos: usize) -> (r: Res<Command>)
    ensures
        command_res(r) == spec_cmd_fr(input@, pos as int),
        advances(r, input@, pos),
{
    if has_code(input, pos, 'F', 'R') {
        Ok((pos + 3, Command::FieldReverse))
    } else {
        fail(ErrorKind::Tag, pos)
    }
}

/// `^GB`: a box. Width and height are mandatory, separated by a comma: where one of the
/// three is missing or unreadable the command fails fatally, at the place where it
/// was expected. Thickness, colour and rounding follow after commas.
pub open spec fn spec_cmd_gb(s: Seq<char>, pos: int) -> SpecRes<CommandView> {
    if code_at(s, pos, 'G', 'B') {
        match cut(spec_parse_u32(s, pos + 3)) {
            Ok((q1, width)) => if comma_at(s, q1) {
                match cut(spec_parse_u32(s, q1 + 1)) {
                    Ok((q2, height)) => {
                        let (q3, border_thickness) = lenient(spec_param_u32(s, q2), q2);
                        let (q4, line_color) = lenient(spec_param_char(s, q3), q3);
                        let (next, corner_rounding) = lenient(spec_param_u32(s, q4), q4);
                        Ok(
                            (
                                next,
                                CommandView::GraphicBox {
                                    width,
                                    height,
                                    border_thickness,
                                    line_color,
                                    corner_rounding,
                                },
                            ),
                        )
                    },
                    Err(f) => Err(f),
                }
            } else {
                cut(soft(ErrorKind::Tag, q1))
            },
            Err(f) => Err(f),
        }
    } else {
        soft(ErrorKind::Tag, pos)
    }
}

/// Matches `^GB`: a box.
pub fn cmd_gb(input: &[char], pos: usize) -> (r: Res<Command>)
    ensures
        command_res(r) == spec_cmd_gb(input@, pos as int),
        advances(r, input@, pos),
{
    if !has_code(input, pos, 'G', 'B') {
        return fail(ErrorKind::Tag, pos);
    }
    let (q1, width) = match parse_u32(input, pos + 3) {
        Ok(found) => found,
        Err(f) => {
            return Err(fatal(f));
        },
    };
    if !(q1 < input.len() && input[q1] == ',') {
        return Err(super::Failure { kind: ErrorKind::Tag, at: q1, fatal: true });
    }
    let (q2, height) = match parse_u32(input, q1 + 1) {
        Ok(found) => found,
        Err(f) => {
            return Err(fatal(f));
        },
    };
    let (q3, border_thickness) = next_u32(input, q2);
    let (q4, line_color) = next_char(input, q3);
    let (next, corner_rounding) = next_u32(input, q4);
    Ok((next, Command::GraphicBox { width, height, border_thickness, line_color, corner_rounding }))
}

/// `^GC`: a circle. An unreadable diameter is fatal.
pub open spec fn spec_cmd_gc(s: Seq<char>, pos: int) -> SpecRes<CommandView> {
    if code_at(s, pos, 'G', 'C') {
        match cut(spec_opt_u32(s, pos + 3)) {
            Ok((q1, diameter)) => {
                let (q2, border_thickness) = lenient(spec_param_u32(s, q1), q1);
                let (next, line_color) = lenient(spec_param_char(s, q2), q2);
                Ok((next, CommandView::GraphicCircle { diameter, border_thickness, line_color }))
            },
            Err(f) => Err(f),
        }
    } else {
        soft(ErrorKind::Tag, pos)
    }
}

/// Matches `^GC`: a circle.
pub fn cmd_gc(input: &[char], pos: usize) -> (r: Res<Command>)
    ensures
        command_res(r) == spec_cmd_gc(input@, pos as int),
        advances(r, input@, pos),
{
    if !has_code(input, pos, 'G', 'C') {
        return fail(ErrorKind::Tag, pos);
    }
    let (q1, diameter) = match opt_u32(input, pos + 3) {
        Ok(found) => found,
        Err(f) => {
            return Err(fatal(f));
        },
    };
    let (q2, border_thickness) = next_u32(input, q1);
    let (next, line_color) = next_char(input, q2);
    Ok((next, Command::GraphicCircle { diameter, border_thickness, line_color }))
}

/// `^GE`: an ellipse. An unreadable width is fatal.
pub open spec fn spec_cmd_ge(s: Seq<char>, pos: int) -> SpecRes<CommandView> {
    if code_at(s, pos, 'G', 'E') {
        match cut(spec_opt_u32(s, pos + 3)) {
            Ok((q1, width)) => {
                let (q2, height) = lenient(spec_param_u32(s, q1), q1);
                let (q3, border_thickness) = lenient(spec_param_u32(s, q2), q2);
                let (next, line_color) = lenient(spec_param_char(s, q3), q3);
                Ok(
                    (
                        next,
                        CommandView::GraphicEllipse { width, height, border_thickness, line_color },
                    ),
                )
            },
            Err(f) => Err(f),
        }
    } else {
        soft(ErrorKind::Tag, pos)
    }
}

/// Matches `^GE`: an ellipse.
pub fn cmd_ge(input: &[char], pos: usize) -> (r: Res<Command>)
    ensures
        command_res(r) == spec_cmd_ge(input@, pos as int),
        advances(r, input@, pos),
{
    if !has_code(input, pos, 'G', 'E') {
        return fail(ErrorKind::Tag, pos);
    }
    let (q1, width) = match opt_u32(input, pos + 3) {
        Ok(found) => found,
        Err(f) => {
            return Err(fatal(f));
        },
    };
    let (q2, height) = next_u32(input, q1);
    let (q3, border_thickness) = next_u32(input, q2);
    let (next, line_color) = next_char(input, q3);
    Ok((next, Command::GraphicEllipse { width, height, border_thickness, line_color }))
}

/// `^GF`: a raw bitmap. An unreadable compression letter is fatal. Three numbers
/// follow after commas, then an optional comma, then the payload up to the next caret.
pub open spec fn spec_cmd_gf(s: Seq<char>, pos: int) -> SpecRes<CommandView> {
    if code_at(s, pos, 'G', 'F') {
        match cut(spec_opt_char(s, pos + 3)) {
            Ok((q1, compression_type)) => {
                let (q2, binary_byte_count) = lenient(spec_param_u32(s, q1), q1);
                let (q3, graphic_field_count) = lenient(spec_param_u32(s, q2), q2);
                let (q4, bytes_per_row) = lenient(spec_param_u32(s, q3), q3);
                let q5 = if comma_at(s, q4) {
                    q4 + 1
                } else {
                    q4
                };
                Ok(
                    (
                        text_end(s, q5),
                        CommandView::GraphicField {
                            compression_type,
                            binary_byte_count,
                            graphic_field_count,
                            bytes_per_row,
                            data: text_until_caret(s, q5),
                        },
                    ),
                )
            },
            Err(f) => Err(f),
        }
    } else {
        soft(ErrorKind::Tag, pos)
    }
}

/// Matches `^GF`: a raw bitmap.
pub fn cmd_gf(input: &[char], pos: usize) -> (r: Res<Command>)
    ensures
        command_res(r) == spec_cmd_gf(input@, pos as int),
        advances(r, input@, pos),
{
    if !has_code(input, pos, 'G', 'F') {
        return fail(ErrorKind::Tag, pos);
    }
    let (q1, compression_type) = match opt_char(input, pos + 3) {
        Ok(found) => found,
        Err(f) => {
            return Err(fatal(f));
        },
    };
    let (q2, binary_byte_count) = next_u32(input, q1);
    let (q3, graphic_field_count) = next_u32(input, q2);
    let (q4, bytes_per_row) = next_u32(input, q3);
    let q5 = if q4 < input.len() && input[q4] == ',' {
        q4 + 1
    } else {
        q4
    };
    let (next, data) = take_text(input, q5);
    Ok(
        (
            next,
            Command::GraphicField {
                compression_type,
                binary_byte_count,
                graphic_field_count,
                bytes_per_row,
                data,
            },
        ),
    )
}

/// `^BC`: a Code 128 barcode. The parameters are read from the text up to the next caret, and the
/// command ends there however many of them could be read.
pub open spec fn spec_cmd_bc(s: Seq<char>, pos: int) -> SpecRes<CommandView> {
    if code_at(s, pos, 'B', 'C') {
        match spec_opt_char(s, pos + 3) {
            Ok((q1, orientation)) => {
                let (q2, height) = lenient(spec_param_u32(s, q1), q1);
                let (q3, interpretation_line) = lenient(spec_param_char(s, q2), q2);
                let (q4, interpretation_line_above) = lenient(spec_param_char(s, q3), q3);
                let (q5, check_digit) = lenient(spec_param_char(s, q4), q4);
                let (q6, mode) = lenient(spec_param_char(s, q5), q5);
                Ok((text_end(s, pos + 3), CommandView::Code128 { orientation, height, interpretation_line, interpretation_line_above, check_digit, mode }))
            },
            Err(f) => Err(f),
        }
    } else {
        soft(ErrorKind::Tag, pos)
    }
}

/// Matches `^BC`: a Code 128 barcode.
pub fn cmd_bc(input: &[char], pos: usize) -> (r: Res<Command>)
    ensures
        command_res(r) == spec_cmd_bc(input@, pos as int),
        advances(r, input@, pos),
{
    if !has_code(input, pos, 'B', 'C') {
        return fail(ErrorKind::Tag, pos);
    }
    let end = super::scan_text(input, pos + 3);
    let (q1, orientation) = match opt_char(input, pos + 3) {
        Ok(found) => found,
        Err(f) => {
            return Err(f);
        },
    };
    let (q2, height) = next_u32(input, q1);
    let (q3, interpretation_line) = next_char(input, q2);
    let (q4, interpretation_line_above) = next_char(input, q3);
    let (q5, check_digit) = next_char(input, q4);
    let (q6, mode) = next_char(input, q5);
    Ok((end, Command::Code128 { orientation, height, interpretation_line, interpretation_line_above, check_digit, mode }))
}

/// `^BQ`: a QR code. The parameters are read from the text up to the next caret, and the
/// command ends there however many of them could be read.
pub open spec fn spec_cmd_bq(s: Seq<char>, pos: int) -> SpecRes<CommandView> {
    if code_at(s, pos, 'B', 'Q') {
        match spec_opt_char(s, pos + 3) {
            Ok((q1, orientation)) => {
                let (q2, model) = lenient(spec_param_u32(s, q1), q1);
                let (q3, magnification) = lenient(spec_param_u32(s, q2), q2);
                let (q4, error_correction) = lenient(spec_param_char(s, q3), q3);
                let (q5, mask) = lenient(spec_param_u32(s, q4), q4);
                Ok((text_end(s, pos + 3), CommandView::QRCode { orientation, model, magnification, error_correction, mask }))
            },
            Err(f) => Err(f),
        }
    } else {
        soft(ErrorKind::Tag, pos)
    }
}

/// Matches `^BQ`: a QR code.
pub fn cmd_bq(input: &[char], pos: usize) -> (r: Res<Command>)
    ensures
        command_res(r) == spec_cmd_bq(input@, pos as int),
        advances(r, input@, pos),
{
    if !has_code(input, pos, 'B', 'Q') {
        return fail(ErrorKind::Tag, pos);
    }
    let end = super::scan_text(input, pos + 3);
    let (q1, orientation) = match opt_char(input, pos + 3) {
        Ok(found) => found,
        Err(f) => {
            return Err(f);
        },
    };
    let (q2, model) = next_u32(input, q1);
    let (q3, magnification) = next_u32(input, q2);
    let (q4, error_correction) = next_char(input, q3);
    let (q5, mask) = next_u32(input, q4);
    Ok((end, Command::QRCode { orientation, model, magnification, error_correction, mask }))
}

/// `^B3`: a Code 39 barcode. The parameters are read from the text up to the next caret, and the
/// command ends there however many of them could be read.
pub open spec fn spec_cmd_b3(s: Seq<char>, pos: int) -> SpecRes<CommandView> {
    if code_at(s, pos, 'B', '3') {
        match spec_opt_char(s, pos + 3) {
            Ok((q1, orientation)) => {
                let (q2, check_digit) = lenient(spec_param_char(s, q1), q1);
                let (q3, height) = lenient(spec_param_u32(s, q2), q2);
                let (q4, interpretation_line) = lenient(spec_param_char(s, q3), q3);
                let (q5, interpretation_line_above) = lenient(spec_param_char(s, q4), q4);
                Ok((text_end(s, pos + 3), CommandView::Code39 { orientation, check_digit, height, interpretation_line, interpretation_line_above }))
            },
            Err(f) => Err(f),
        }
    } else {
        soft(ErrorKind::Tag, pos)
    }
}

/// Matches `^B3`: a Code 39 barcode.
pub fn cmd_b3(input: &[char], pos: usize) -> (r: Res<Command>)
    ensures
        command_res(r) == spec_cmd_b3(input@, pos as int),
        advances(r, input@, pos),
{
    if !has_code(input, pos, 'B', '3') {
        return fail(ErrorKind::Tag, pos);
    }
    let end = super::scan_text(input, pos + 3);
    let (q1, orientation) = match opt_char(input, pos + 3) {
        Ok(found) => found,
        Err(f) => {
            return Err(f);
        },
    };
    let (q2, check_digit) = next_char(input, q1);
    let (q3, height) = next_u32(input, q2);
    let (q4, interpretation_line) = next_char(input, q3);
    let (q5, interpretation_line_above) = next_char(input, q4);
    Ok((end, Command::Code39 { orientation, check_digit, height, interpretation_line, interpretation_line_above }))
}

/// `^BY`: the defaults of the following barcodes. The parameters are read from the text
/// up to the next caret, and the command ends there however many of them could be read.
pub open spec fn spec_cmd_by(s: Seq<char>, pos: int) -> SpecRes<CommandView> {
    if code_at(s, pos, 'B', 'Y') {
        match spec_opt_u32(s, pos + 3) {
            Ok((q1, module_width)) => {
                let (q2, ratio) = lenient(spec_param_f32(s, q1), q1);
                let (q3, height) = lenient(spec_param_u32(s, q2), q2);
                Ok(
                    (
                        text_end(s, pos + 3),
                        CommandView::BarcodeDefault { module_width, ratio, height },
                    ),
                )
            },
            Err(f) => Err(f),
        }
    } else {
        soft(ErrorKind::Tag, pos)
    }
}

/// Matches `^BY`: the defaults of the following barcodes.
pub fn cmd_by(input: &[char], pos: usize) -> (r: Res<Command>)
    ensures
        command_res(r) == spec_cmd_by(input@, pos as int),
        advances(r, input@, pos),
{
    if !has_code(input, pos, 'B', 'Y') {
        return fail(ErrorKind::Tag, pos);
    }
    let end = super::scan_text(input, pos + 3);
    let (q1, module_width) = match opt_u32(input, pos + 3) {
        Ok(found) => found,
        Err(f) => {
            return Err(f);
        },
    };
    let (q2, ratio) = next_f32(input, q1);
    let (q3, height) = next_u32(input, q2);
    Ok((end, Command::BarcodeDefault { module_width, ratio, height }))
}

/// `^BX`: a Data Matrix barcode. The parameters are read from the text up to the next caret, and the
/// command ends there however many of them could be read.
pub open spec fn spec_cmd_bx(s: Seq<char>, pos: int) -> SpecRes<CommandView> {
    if code_at(s, pos, 'B', 'X') {
        match spec_opt_char(s, pos + 3) {
            Ok((q1, orientation)) => {
                let (q2, height) = lenient(spec_param_u32(s, q1), q1);
                let (q3, quality) = lenient(spec_param_u32(s, q2), q2);
                let (q4, columns) = lenient(spec_param_u32(s, q3), q3);
                let (q5, rows) = lenient(spec_param_u32(s, q4), q4);
                Ok((text_end(s, pos + 3), CommandView::DataMatrix { orientation, height, quality, columns, rows }))
            },
            Err(f) => Err(f),
        }
    } else {
        soft(ErrorKind::Tag, pos)
    }
}

/// Matches `^BX`: a Data Matrix barcode.
pub fn cmd_bx(input: &[char], pos: usize) -> (r: Res<Command>)
    ensures
        command_res(r) == spec_cmd_bx(input@, pos as int),
        advances(r, input@, pos),
{
    if !has_code(input, pos, 'B', 'X') {
        return fail(ErrorKind::Tag, pos);
    }
    let end = super::scan_text(input, pos + 3);
    let (q1, orientation) = match opt_char(input, pos + 3) {
        Ok(found) => found,
        Err(f) => {
            return Err(f);
        },
    };
    let (q2, height) = next_u32(input, q1);
    let (q3, quality) = next_u32(input, q2);
    let (q4, columns) = next_u32(input, q3);
    let (q5, rows) = next_u32(input, q4);
    Ok((end, Command::DataMatrix { orientation, height, quality, columns, rows }))
}

} // verus!
