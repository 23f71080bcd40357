//! The instruction builder: a state machine over the command sequence.
//!
//! Most commands only change the modal state. A field separator emits at most one
//! instruction from that state and then clears what belongs to the field alone. What the
//! builder produces is defined by [`built`]; [`ZplInstructionBuilder::build`] computes it.

use vstd::prelude::*;
use crate::ast::cmd::{command_views, Command, CommandView};
use crate::error::ZplResult;
use crate::tools::{decode, zpl_decode};
use crate::text::copy_text;
use super::common::{instruction_views, InstructionView, ZplInstruction};
use super::state::{
    initial_state_view, AttributesView, FontView, ParamsView, StateView,
    ZplInstructionMetrics, ZplInstructionPosition, ZplInstructionState, ZplInstructionType,
    ZplInstructionTypeset,
};

verus! {

/// Addition that stops at the largest value instead of wrapping.
pub open spec fn saturating_sum(a: u32, b: u32) -> u32 {
    if a + b > u32::MAX {
        u32::MAX
    } else {
        (a + b) as u32
    }
}

/// Eight times `n`, or the largest value if that does not fit.
pub open spec fn saturating_times_eight(n: u32) -> u32 {
    if n * 8 > u32::MAX {
        u32::MAX
    } else {
        (n * 8) as u32
    }
}

/// The given value, or `fallback` where none is given.
pub open spec fn value_or<T>(given: Option<T>, fallback: T) -> T {
    match given {
        Some(v) => v,
        None => fallback,
    }
}

/// The given value, or the one held before where none is given.
pub open spec fn merged<T>(held: Option<T>, given: Option<T>) -> Option<T> {
    match given {
        Some(v) => Some(v),
        None => held,
    }
}

/// The height of a barcode: as written, else the barcode default, else 10.
pub open spec fn barcode_height(given: Option<u32>, defaults: ZplInstructionMetrics) -> u32 {
    match given {
        Some(h) => h,
        None => if defaults.height > 0 {
            defaults.height
        } else {
            10
        },
    }
}

/// The module width or magnification: as written, else the barcode default, else 2.
pub open spec fn barcode_thickness(given: Option<u32>, defaults: ZplInstructionMetrics) -> u32 {
    match given {
        Some(t) => t,
        None => if defaults.thickness > 0 {
            defaults.thickness
        } else {
            2
        },
    }
}

/// A raw-graphic command in a compression scheme other than `A` ends the build: no
/// later command is looked at.
pub open spec fn stops_build(cmd: CommandView) -> bool {
    cmd matches CommandView::GraphicField { compression_type: Some(c), .. } && c != 'A'
}

/// The state after a command that is neither a field separator nor one that stops
/// the build. Commands without an effect on the builder leave the state as it is.
pub open spec fn apply_command(st: StateView, cmd: CommandView) -> StateView {
    match cmd {
        CommandView::FieldOrigin { x, y } => StateView {
            position: ZplInstructionPosition {
                x: value_or(x, st.position.x),
                y: value_or(y, st.position.y),
            },
            ..st
        },
        CommandView::FieldTypeset { x, y } => StateView {
            typeset: ZplInstructionTypeset {
                x: saturating_sum(st.typeset.x, value_or(x, 0)),
                y: saturating_sum(st.typeset.y, value_or(y, 0)),
            },
            ..st
        },
        CommandView::FieldReverse => StateView { reverse: !st.reverse, ..st },
        CommandView::FontSpec { font_name, height, width } => StateView {
            font: FontView {
                font_name,
                height: merged(st.font.height, height),
                width: merged(st.font.width, width),
                ..st.font
            },
            ..st
        },
        CommandView::FontSpecFull { font_name, orientation, height, width } => StateView {
            font: FontView {
                font_name,
                orientation: merged(st.font.orientation, orientation),
                height: merged(st.font.height, height),
                width: merged(st.font.width, width),
                ..st.font
            },
            ..st
        },
        CommandView::FieldData { data } => StateView { value: Some(data), ..st },
        CommandView::GraphicBox { width, height, border_thickness, line_color, corner_rounding } => StateView {
            metrics: ZplInstructionMetrics {
                width,
                height,
                thickness: value_or(border_thickness, 1),
            },
            attributes: AttributesView { line_color, ..st.attributes },
            params: ParamsView { rounding: value_or(corner_rounding, 0), ..st.params },
            instruction_type: Some(ZplInstructionType::GraphicBox),
            ..st
        },
        CommandView::GraphicCircle { diameter, border_thickness, line_color } => StateView {
            metrics: ZplInstructionMetrics {
                width: value_or(diameter, 0),
                thickness: value_or(border_thickness, 1),
                ..st.metrics
            },
            attributes: AttributesView { line_color, ..st.attributes },
            instruction_type: Some(ZplInstructionType::GraphicCircle),
            ..st
        },
        CommandView::GraphicEllipse { width, height, border_thickness, line_color } => StateView {
            metrics: ZplInstructionMetrics {
                width: value_or(width, 0),
                height: value_or(height, 0),
                thickness: value_or(border_thickness, 1),
            },
            attributes: AttributesView { line_color, ..st.attributes },
            instruction_type: Some(ZplInstructionType::GraphicEllipse),
            ..st
        },
        CommandView::GraphicTextColor { color } => StateView {
            font: FontView { color: Some(color), ..st.font },
            ..st
        },
        CommandView::GraphicLineColor { color } => StateView {
            attributes: AttributesView { custom_line_color: Some(color), ..st.attributes },
            ..st
        },
        CommandView::GraphicField { graphic_field_count, bytes_per_row, data, .. } => StateView {
            metrics: ZplInstructionMetrics {
                width: match bytes_per_row {
                    Some(per_row) => saturating_times_eight(per_row),
                    None => st.metrics.width,
                },
                height: match (bytes_per_row, graphic_field_count) {
                    (Some(per_row), Some(total)) if per_row > 0 => total / per_row,
                    _ => st.metrics.height,
                },
                ..st.metrics
            },
            graphic_data: Some(decode(data, value_or(bytes_per_row, 0) as nat)),
            instruction_type: Some(ZplInstructionType::GraphicField),
            ..st
        },
        CommandView::BarcodeDefault { module_width, ratio, height } => StateView {
            barcode_metrics: ZplInstructionMetrics {
                thickness: value_or(module_width, st.barcode_metrics.thickness),
                height: value_or(height, st.barcode_metrics.height),
                ..st.barcode_metrics
            },
            params: ParamsView { ratio: merged(st.params.ratio, ratio), ..st.params },
            ..st
        },
        CommandView::Code128 {
            orientation,
            height,
            interpretation_line,
            interpretation_line_above,
            check_digit,
            mode,
        } => StateView {
            metrics: ZplInstructionMetrics {
                height: barcode_height(height, st.barcode_metrics),
                ..st.metrics
            },
            attributes: AttributesView {
                orientation,
                interpretation_line,
                interpretation_above: interpretation_line_above,
                check_digit,
                mode,
                ..st.attributes
            },
            instruction_type: Some(ZplInstructionType::Code128),
            ..st
        },
        CommandView::Code39 {
            orientation,
            check_digit,
            height,
            interpretation_line,
            interpretation_line_above,
        } => StateView {
            metrics: ZplInstructionMetrics {
                height: barcode_height(height, st.barcode_metrics),
                ..st.metrics
            },
            attributes: AttributesView {
                orientation,
                check_digit,
                interpretation_line,
                interpretation_above: interpretation_line_above,
                ..st.attributes
            },
            instruction_type: Some(ZplInstructionType::Code39),
            ..st
        },
        CommandView::QRCode { orientation, model, magnification, error_correction, mask } => StateView {
            metrics: ZplInstructionMetrics {
                thickness: barcode_thickness(magnification, st.barcode_metrics),
                ..st.metrics
            },
            attributes: AttributesView { orientation, error_correction, ..st.attributes },
            params: ParamsView { model: value_or(model, 2), mask: value_or(mask, 7), ..st.params },
            instruction_type: Some(ZplInstructionType::QRCode),
            ..st
        },
        CommandView::CustomImage { width, height, data } => StateView {
            metrics: ZplInstructionMetrics { width, height, ..st.metrics },
            value: Some(data),
            instruction_type: Some(ZplInstructionType::CustomImage),
            ..st
        },
        _ => st,
    }
}

/// The text instruction for the current font, position and pending value.
pub open spec fn text_instruction(st: StateView, text: Seq<char>) -> InstructionView {
    InstructionView::Text {
        x: st.position.x,
        y: st.position.y,
        font: st.font.font_name,
        height: st.font.height,
        width: st.font.width,
        text,
        reverse_print: st.reverse,
        color: st.font.color,
    }
}

/// The instruction that a field separator emits from a state, if any. With a pending
/// kind, the instruction of that kind; a bitmap only if one was decoded. Without a
/// pending kind, a text instruction if a value is pending.
pub open spec fn flush_field(st: StateView) -> Option<InstructionView> {
    let x = st.position.x;
    let y = st.position.y;
    let data = value_or(st.value, Seq::<char>::empty());
    let reverse_print = st.reverse;
    match st.instruction_type {
        Some(ZplInstructionType::GraphicBox) => Some(
            InstructionView::GraphicBox {
                x,
                y,
                width: st.metrics.width,
                height: st.metrics.height,
                thickness: st.metrics.thickness,
                color: value_or(st.attributes.line_color, 'B'),
                custom_color: st.attributes.custom_line_color,
                rounding: st.params.rounding,
                reverse_print,
            },
        ),
        Some(ZplInstructionType::GraphicCircle) => Some(
            InstructionView::GraphicCircle {
                x,
                y,
                radius: st.metrics.width,
                thickness: st.metrics.thickness,
                color: value_or(st.attributes.line_color, 'B'),
                custom_color: st.attributes.custom_line_color,
                reverse_print,
            },
        ),
        Some(ZplInstructionType::GraphicEllipse) => Some(
            InstructionView::GraphicEllipse {
                x,
                y,
                width: st.metrics.width,
                height: st.metrics.height,
                thickness: st.metrics.thickness,
                color: value_or(st.attributes.line_color, 'B'),
                custom_color: st.attributes.custom_line_color,
                reverse_print,
            },
        ),
        Some(ZplInstructionType::GraphicField) => match st.graphic_data {
            Some(bitmap) => Some(
                InstructionView::GraphicField {
                    x,
                    y,
                    width: st.metrics.width,
                    height: st.metrics.height,
                    data: bitmap,
                    reverse_print,
                },
            ),
            None => None,
        },
        Some(ZplInstructionType::CustomImage) => Some(
            InstructionView::CustomImage {
                x,
                y,
                width: st.metrics.width,
                height: st.metrics.height,
                data,
            },
        ),
        Some(ZplInstructionType::Code128) => Some(
            InstructionView::Code128 {
                x,
                y,
                orientation: value_or(st.attributes.orientation, 'N'),
                height: st.metrics.height,
                module_width: barcode_thickness(None, st.barcode_metrics),
                interpretation_line: value_or(st.attributes.interpretation_line, 'Y'),
                interpretation_line_above: value_or(st.attributes.interpretation_above, 'N'),
                check_digit: value_or(st.attributes.check_digit, 'N'),
                mode: value_or(st.attributes.mode, 'N'),
                data,
                reverse_print,
            },
        ),
        Some(ZplInstructionType::Code39) => Some(
            InstructionView::Code39 {
                x,
                y,
                orientation: value_or(st.attributes.orientation, 'N'),
                check_digit: value_or(st.attributes.check_digit, 'N'),
                height: st.metrics.height,
                module_width: barcode_thickness(None, st.barcode_metrics),
                interpretation_line: value_or(st.attributes.interpretation_line, 'Y'),
                interpretation_line_above: value_or(st.attributes.interpretation_above, 'N'),
                data,
                reverse_print,
            },
        ),
        Some(ZplInstructionType::QRCode) => Some(
            InstructionView::QRCode {
                x,
                y,
                orientation: value_or(st.attributes.orientation, 'N'),
                model: st.params.model,
                magnification: st.metrics.thickness,
                error_correction: value_or(st.attributes.error_correction, 'M'),
                mask: st.params.mask,
                data,
                reverse_print,
            },
        ),
        Some(ZplInstructionType::Text) => Some(text_instruction(st, data)),
        None => match st.value {
            Some(text) => Some(text_instruction(st, text)),
            None => None,
        },
    }
}

/// The state after a field separator: what belongs to the field alone is cleared, and
/// everything modal stays.
pub open spec fn reset_field(st: StateView) -> StateView {
    StateView { value: None, instruction_type: None, graphic_data: None, reverse: false, ..st }
}

/// How far a build has come.
pub struct BuildProgress {
    /// The modal state.
    pub state: StateView,
    /// The instructions emitted so far.
    pub instructions: Seq<InstructionView>,
    /// Whether the build has ended early.
    pub stopped: bool,
}

/// The progress after one more command.
pub open spec fn build_step(p: BuildProgress, cmd: CommandView) -> BuildProgress {
    if p.stopped {
        p
    } else if stops_build(cmd) {
        BuildProgress { stopped: true, ..p }
    } else if cmd is FieldSeparator {
        BuildProgress {
            state: reset_field(p.state),
            instructions: match flush_field(p.state) {
                Some(instruction) => p.instructions.push(instruction),
                None => p.instructions,
            },
            stopped: false,
        }
    } else {
        BuildProgress { state: apply_command(p.state, cmd), ..p }
    }
}

/// The progress after the first `n` commands, starting from the state `start`.
pub open spec fn build_prefix(start: StateView, commands: Seq<CommandView>, n: nat) -> BuildProgress
    decreases n,
{
    if n == 0 {
        BuildProgress { state: start, instructions: Seq::empty(), stopped: false }
    } else {
        build_step(build_prefix(start, commands, (n - 1) as nat), commands[n - 1])
    }
}

/// The instructions that a command sequence stands for.
pub open spec fn built(commands: Seq<CommandView>) -> Seq<InstructionView> {
    build_prefix(initial_state_view(), commands, commands.len()).instructions
}

/// In every state the builder reaches, a pending bitmap kind comes with its bitmap.
pub open spec fn state_consistent(st: StateView) -> bool {
    st.instruction_type == Some(ZplInstructionType::GraphicField) ==> st.graphic_data is Some
}

/// No command breaks the consistency of the state.
pub proof fn lemma_step_consistent(p: BuildProgress, cmd: CommandView)
    requires
        state_consistent(p.state),
    ensures
        state_consistent(build_step(p, cmd).state),
{
}

/// Every state the builder reaches is consistent.
pub proof fn lemma_prefix_consistent(commands: Seq<CommandView>, n: nat)
    ensures
        state_consistent(build_prefix(initial_state_view(), commands, n).state),
    decreases n,
{
    if n > 0 {
        lemma_prefix_consistent(commands, (n - 1) as nat);
        lemma_step_consistent(
            build_prefix(initial_state_view(), commands, (n - 1) as nat),
            commands[n - 1],
        );
    }
}

/// **One instruction per field.** A field separator emits exactly one instruction when
/// a value or a kind is pending, and none otherwise; it never emits more than one.
pub proof fn lemma_separator_emits_iff_pending(p: BuildProgress)
    requires
        !p.stopped,
        state_consistent(p.state),
    ensures
        ({
            let after = build_step(p, CommandView::FieldSeparator);
            let pending = p.state.value is Some || p.state.instruction_type is Some;
            &&& pending ==> after.instructions.len() == p.instructions.len() + 1
            &&& !pending ==> after.instructions == p.instructions
            &&& after.instructions.take(p.instructions.len() as int) == p.instructions
        }),
{
}

/// **Field boundaries.** A field separator clears the pending value, kind and bitmap and
/// the reverse flag, and leaves position, typeset, font, attributes, parameters and the
/// barcode defaults as they were.
pub proof fn lemma_separator_keeps_modal_state(p: BuildProgress)
    requires
        !p.stopped,
    ensures
        ({
            let after = build_step(p, CommandView::FieldSeparator).state;
            &&& after.value is None
            &&& after.instruction_type is None
            &&& after.graphic_data is None
            &&& !after.reverse
            &&& after.position == p.state.position
            &&& after.typeset == p.state.typeset
            &&& after.font == p.state.font
            &&& after.attributes == p.state.attributes
            &&& after.params == p.state.params
            &&& after.metrics == p.state.metrics
            &&& after.barcode_metrics == p.state.barcode_metrics
        }),
{
}

/// **Barcode defaults persist.** Only the barcode-defaults command changes the barcode
/// defaults; every other command, the field separator included, leaves them alone.
pub proof fn lemma_barcode_defaults_persist(p: BuildProgress, cmd: CommandView)
    requires
        !(cmd is BarcodeDefault),
    ensures
        build_step(p, cmd).state.barcode_metrics == p.state.barcode_metrics,
{
}

/// **Modal persistence.** Only the two font commands and the text colour command change
/// the font; every other command, the field separator included, leaves it alone, so a
/// field without a font command of its own is drawn in the font of the field before.
pub proof fn lemma_font_persists(p: BuildProgress, cmd: CommandView)
    requires
        !(cmd is FontSpec),
        !(cmd is FontSpecFull),
        !(cmd is GraphicTextColor),
    ensures
        build_step(p, cmd).state.font == p.state.font,
{
}

/// A field that holds nothing but data is emitted as text in the current font, at the
/// current position.
pub proof fn lemma_text_carries_font(st: StateView, text: Seq<char>)
    requires
        st.instruction_type is None,
        st.value == Some(text),
    ensures
        flush_field(st) == Some(
            InstructionView::Text {
                x: st.position.x,
                y: st.position.y,
                font: st.font.font_name,
                height: st.font.height,
                width: st.font.width,
                text,
                reverse_print: st.reverse,
                color: st.font.color,
            },
        ),
{
}

/// **Barcode-default fallback.** A Code 128 barcode that gives no height of its own takes
/// the height of the barcode defaults, or 10 if none was set, and its module width is
/// that of the barcode defaults, or 2 if none was set.
pub proof fn lemma_barcode_falls_back_to_defaults(
    st: StateView,
    orientation: Option<char>,
    interpretation_line: Option<char>,
    interpretation_line_above: Option<char>,
    check_digit: Option<char>,
    mode: Option<char>,
)
    ensures
        ({
            let after = apply_command(
                st,
                CommandView::Code128 {
                    orientation,
                    height: None,
                    interpretation_line,
                    interpretation_line_above,
                    check_digit,
                    mode,
                },
            );
            let defaults = st.barcode_metrics;
            &&& flush_field(after) matches Some(InstructionView::Code128 { height, module_width, .. })
            &&& flush_field(after)->0->Code128_height == if defaults.height > 0 {
                defaults.height
            } else {
                10
            }
            &&& flush_field(after)->0->Code128_module_width == if defaults.thickness > 0 {
                defaults.thickness
            } else {
                2
            }
        }),
{
}

/// **Bounded bitmaps.** The bitmap that a raw-graphic command leaves in the state is never
/// longer than the decoder's cap.
pub proof fn lemma_bitmap_is_bounded(st: StateView, cmd: CommandView)
    requires
        cmd is GraphicField,
    ensures
        apply_command(st, cmd).graphic_data matches Some(bitmap) && bitmap.len()
            <= crate::tools::MAX_DECODED_SIZE,
{
    crate::tools::lemma_decode_bounded(
        cmd->GraphicField_data,
        value_or(cmd->GraphicField_bytes_per_row, 0) as nat,
    );
}

/// Commands that the builder does not know leave the state as it is.
pub proof fn lemma_unknown_commands_change_nothing(p: BuildProgress, cmd: CommandView)
    requires
        cmd is UnsupportedCommand,
    ensures
        build_step(p, cmd) == p,
{
}

/// Instructions are only ever added at the end: what was emitted stays, in order.
pub proof fn lemma_instructions_only_grow(start: StateView, commands: Seq<CommandView>, n: nat, m: nat)
    requires
        n <= m,
    ensures
        build_prefix(start, commands, n).instructions.len() <= build_prefix(
            start,
            commands,
            m,
        ).instructions.len(),
        build_prefix(start, commands, m).instructions.take(
            build_prefix(start, commands, n).instructions.len() as int,
        ) == build_prefix(start, commands, n).instructions,
    decreases m,
{
    if n < m {
        lemma_instructions_only_grow(start, commands, n, (m - 1) as nat);
    }
}

/// Whether the command ends the build.
fn ends_build(cmd: &Command) -> (b: bool)
    ensures
        b == stops_build(cmd@),
{
    match cmd {
        Command::GraphicField { compression_type: Some(c), .. } => *c != 'A',
        _ => false,
    }
}

/// Addition that stops at the largest value.
fn add_saturating(a: u32, b: u32) -> (r: u32)
    ensures
        r == saturating_sum(a, b),
{
    if b > u32::MAX - a {
        u32::MAX
    } else {
        a + b
    }
}

/// The height of a barcode.
fn height_of_barcode(given: &Option<u32>, defaults: &ZplInstructionMetrics) -> (r: u32)
    ensures
        r == barcode_height(*given, *defaults),
{
    match given {
        Some(h) => *h,
        None => if defaults.height > 0 {
            defaults.height
        } else {
            10
        },
    }
}

/// The module width or magnification of a barcode.
fn thickness_of_barcode(given: &Option<u32>, defaults: &ZplInstructionMetrics) -> (r: u32)
    ensures
        r == barcode_thickness(*given, *defaults),
{
    match given {
        Some(t) => *t,
        None => if defaults.thickness > 0 {
            defaults.thickness
        } else {
            2
        },
    }
}

/// Carries out a command that changes the state only.
fn apply(state: &mut ZplInstructionState, cmd: &Command)
    requires
        !stops_build(cmd@),
    ensures
        final(state)@ == apply_command(old(state)@, cmd@),
{
    match cmd {
        Command::FieldOrigin { x, y } => {
            if let Some(x) = x {
                state.position.x = *x;
            }
            if let Some(y) = y {
                state.position.y = *y;
            }
        },
        Command::FieldTypeset { x, y } => {
            if let Some(x) = x {
                state.typeset.x = add_saturating(state.typeset.x, *x);
            }
            if let Some(y) = y {
                state.typeset.y = add_saturating(state.typeset.y, *y);
            }
        },
        Command::FieldReverse => {
            state.reverse = !state.reverse;
        },
        Command::FontSpec { font_name, height, width } => {
            state.font.font_name = *font_name;
            if let Some(h) = height {
                state.font.height = Some(*h);
            }
            if let Some(w) = width {
                state.font.width = Some(*w);
            }
        },
        Command::FontSpecFull { font_name, orientation, height, width } => {
            state.font.font_name = *font_name;
            if let Some(o) = orientation {
                state.font.orientation = Some(*o);
            }
            if let Some(h) = height {
                state.font.height = Some(*h);
            }
            if let Some(w) = width {
                state.font.width = Some(*w);
            }
        },
        Command::FieldData { data } => {
            state.value = Some(data.clone());
        },
        Command::GraphicBox { width, height, border_thickness, line_color, corner_rounding } => {
            state.metrics.width = *width;
            state.metrics.height = *height;
            state.metrics.thickness = match border_thickness {
                Some(t) => *t,
                None => 1,
            };
            state.attributes.line_color = *line_color;
            state.params.rounding = match corner_rounding {
                Some(r) => *r,
                None => 0,
            };
            state.instruction_type = Some(ZplInstructionType::GraphicBox);
        },
        Command::GraphicCircle { diameter, border_thickness, line_color } => {
            state.metrics.width = match diameter {
                Some(d) => *d,
                None => 0,
            };
            state.metrics.thickness = match border_thickness {
                Some(t) => *t,
                None => 1,
            };
            state.attributes.line_color = *line_color;
            state.instruction_type = Some(ZplInstructionType::GraphicCircle);
        },
        Command::GraphicEllipse { width, height, border_thickness, line_color } => {
            state.metrics.width = match width {
                Some(w) => *w,
                None => 0,
            };
            state.metrics.height = match height {
                Some(h) => *h,
                None => 0,
            };
            state.metrics.thickness = match border_thickness {
                Some(t) => *t,
                None => 1,
            };
            state.attributes.line_color = *line_color;
            state.instruction_type = Some(ZplInstructionType::GraphicEllipse);
        },
        Command::GraphicTextColor { color } => {
            state.font.color = Some(color.clone());
        },
        Command::GraphicLineColor { color } => {
            state.attributes.custom_line_color = Some(color.clone());
        },
        Command::GraphicField {
            compression_type: _,
            binary_byte_count: _,
            graphic_field_count,
            bytes_per_row,
            data,
        } => {
            let per_row: usize = match bytes_per_row {
                Some(b) => *b as usize,
                None => 0,
            };
            let bytes = zpl_decode(data.as_str(), per_row);
            if let Some(b) = bytes_per_row {
                state.metrics.width = if *b > u32::MAX / 8 {
                    u32::MAX
                } else {
                    *b * 8
                };
                if let Some(total) = graphic_field_count {
                    if *b > 0 {
                        state.metrics.height = *total / *b;
                    }
                }
            }
            state.graphic_data = Some(bytes);
            state.instruction_type = Some(ZplInstructionType::GraphicField);
        },
        Command::BarcodeDefault { module_width, ratio, height } => {
            if let Some(w) = module_width {
                state.barcode_metrics.thickness = *w;
            }
            if let Some(h) = height {
                state.barcode_metrics.height = *h;
            }
            if let Some(r) = ratio {
                state.params.ratio = Some(r.clone());
            }
        },
        Command::Code128 {
            orientation,
            height,
            interpretation_line,
            interpretation_line_above,
            check_digit,
            mode,
        } => {
            state.attributes.orientation = *orientation;
            state.metrics.height = height_of_barcode(height, &state.barcode_metrics);
            state.attributes.interpretation_line = *interpretation_line;
            state.attributes.interpretation_above = *interpretation_line_above;
            state.attributes.check_digit = *check_digit;
            state.attributes.mode = *mode;
            state.instruction_type = Some(ZplInstructionType::Code128);
        },
        Command::Code39 {
            orientation,
            check_digit,
            height,
            interpretation_line,
            interpretation_line_above,
        } => {
            state.attributes.orientation = *orientation;
            state.attributes.check_digit = *check_digit;
            state.metrics.height = height_of_barcode(height, &state.barcode_metrics);
            state.attributes.interpretation_line = *interpretation_line;
            state.attributes.interpretation_above = *interpretation_line_above;
            state.instruction_type = Some(ZplInstructionType::Code39);
        },
        Command::QRCode { orientation, model, magnification, error_correction, mask } => {
            state.attributes.orientation = *orientation;
            state.params.model = match model {
                Some(m) => *m,
                None => 2,
            };
            state.metrics.thickness = thickness_of_barcode(magnification, &state.barcode_metrics);
            state.attributes.error_correction = *error_correction;
            state.params.mask = match mask {
                Some(m) => *m,
                None => 7,
            };
            state.instruction_type = Some(ZplInstructionType::QRCode);
        },
        Command::CustomImage { width, height, data } => {
            state.metrics.width = *width;
            state.metrics.height = *height;
            state.value = Some(data.clone());
            state.instruction_type = Some(ZplInstructionType::CustomImage);
        },
        _ => {},
    }
}

/// The letter, or `fallback` where none is set.
fn letter_or(given: &Option<char>, fallback: char) -> (r: char)
    ensures
        r == value_or(*given, fallback),
{
    match given {
        Some(c) => *c,
        None => fallback,
    }
}

/// The text instruction for the current font and position.
fn make_text(state: &ZplInstructionState, text: String) -> (r: ZplInstruction)
    ensures
        r@ == text_instruction(state@, text@),
{
    ZplInstruction::Text {
        x: state.position.x,
        y: state.position.y,
        font: state.font.font_name,
        height: state.font.height,
        width: state.font.width,
        text,
        reverse_print: state.reverse,
        color: copy_text(&state.font.color),
    }
}

/// The instruction that a field separator emits from the state, if any.
fn flush(state: &ZplInstructionState) -> (r: Option<ZplInstruction>)
    ensures
        match r {
            Some(instruction) => flush_field(state@) == Some(instruction@),
            None => flush_field(state@) is None,
        },
{
    let x = state.position.x;
    let y = state.position.y;
    let data = match &state.value {
        Some(v) => v.clone(),
        None => String::new(),
    };
    let reverse_print = state.reverse;
    match &state.instruction_type {
        Some(ZplInstructionType::GraphicBox) => Some(
            ZplInstruction::GraphicBox {
                x,
                y,
                width: state.metrics.width,
                height: state.metrics.height,
                thickness: state.metrics.thickness,
                color: letter_or(&state.attributes.line_color, 'B'),
                custom_color: copy_text(&state.attributes.custom_line_color),
                rounding: state.params.rounding,
                reverse_print,
            },
        ),
        Some(ZplInstructionType::GraphicCircle) => Some(
            ZplInstruction::GraphicCircle {
                x,
                y,
                radius: state.metrics.width,
                thickness: state.metrics.thickness,
                color: letter_or(&state.attributes.line_color, 'B'),
                custom_color: copy_text(&state.attributes.custom_line_color),
                reverse_print,
            },
        ),
        Some(ZplInstructionType::GraphicEllipse) => Some(
            ZplInstruction::GraphicEllipse {
                x,
                y,
                width: state.metrics.width,
                height: state.metrics.height,
                thickness: state.metrics.thickness,
                color: letter_or(&state.attributes.line_color, 'B'),
                custom_color: copy_text(&state.attributes.custom_line_color),
                reverse_print,
            },
        ),
        Some(ZplInstructionType::GraphicField) => match &state.graphic_data {
            Some(bitmap) => {
                let copy = bitmap.clone();
                Some(
                    ZplInstruction::GraphicField {
                        x,
                        y,
                        width: state.metrics.width,
                        height: state.metrics.height,
                        data: copy,
                        reverse_print,
                    },
                )
            },
            None => None,
        },
        Some(ZplInstructionType::CustomImage) => Some(
            ZplInstruction::CustomImage {
                x,
                y,
                width: state.metrics.width,
                height: state.metrics.height,
                data,
            },
        ),
        Some(ZplInstructionType::Code128) => Some(
            ZplInstruction::Code128 {
                x,
                y,
                orientation: letter_or(&state.attributes.orientation, 'N'),
                height: state.metrics.height,
                module_width: thickness_of_barcode(&None, &state.barcode_metrics),
                interpretation_line: letter_or(&state.attributes.interpretation_line, 'Y'),
                interpretation_line_above: letter_or(&state.attributes.interpretation_above, 'N'),
                check_digit: letter_or(&state.attributes.check_digit, 'N'),
                mode: letter_or(&state.attributes.mode, 'N'),
                data,
                reverse_print,
            },
        ),
        Some(ZplInstructionType::Code39) => Some(
            ZplInstruction::Code39 {
                x,
                y,
                orientation: letter_or(&state.attributes.orientation, 'N'),
                check_digit: letter_or(&state.attributes.check_digit, 'N'),
                height: state.metrics.height,
                module_width: thickness_of_barcode(&None, &state.barcode_metrics),
                interpretation_line: letter_or(&state.attributes.interpretation_line, 'Y'),
                interpretation_line_above: letter_or(&state.attributes.interpretation_above, 'N'),
                data,
                reverse_print,
            },
        ),
        Some(ZplInstructionType::QRCode) => Some(
            ZplInstruction::QRCode {
                x,
                y,
                orientation: letter_or(&state.attributes.orientation, 'N'),
                model: state.params.model,
                magnification: state.metrics.thickness,
                error_correction: letter_or(&state.attributes.error_correction, 'M'),
                mask: state.params.mask,
                data,
                reverse_print,
            },
        ),
        Some(ZplInstructionType::Text) => Some(make_text(state, data)),
        None => match &state.value {
            Some(text) => Some(make_text(state, text.clone())),
            None => None,
        },
    }
}

/// Turns a command sequence into drawing instructions.
pub struct ZplInstructionBuilder {
    /// The commands, in the order of the text.
    commands: Vec<Command>,
    /// The modal state.
    state: ZplInstructionState,
}

impl ZplInstructionBuilder {
    /// The commands that this builder was made with.
    pub closed spec fn commands(&self) -> Seq<CommandView> {
        command_views(self.commands@)
    }

    /// The modal state that this builder starts from.
    pub closed spec fn state(&self) -> StateView {
        self.state@
    }

    /// A builder for the given commands, in the initial state.
    pub fn new(commands: Vec<Command>) -> (builder: Self)
        ensures
            builder.commands() == command_views(commands@),
            builder.state() == initial_state_view(),
    {
        Self { commands, state: ZplInstructionState::default() }
    }

    /// Runs the commands through the state machine and returns the instructions in draw
    /// order. The build cannot fail; a raw-graphic command in a compression scheme other
    /// than `A` ends it early, with the instructions emitted up to there.
    pub fn build(self) -> (r: ZplResult<Vec<ZplInstruction>>)
        ensures
            r matches Ok(instructions) && instruction_views(instructions@) == build_prefix(
                self.state(),
                self.commands(),
                self.commands().len(),
            ).instructions,
    {
        let ZplInstructionBuilder { commands, state } = self;
        let mut state = state;
        let mut instructions: Vec<ZplInstruction> = Vec::new();
        let ghost start = state@;
        let ghost views = command_views(commands@);
        let mut i: usize = 0;
        while i < commands.len()
            invariant_except_break
                i <= commands.len(),
                !build_prefix(start, views, i as nat).stopped,
                state@ == build_prefix(start, views, i as nat).state,
                instruction_views(instructions@) == build_prefix(start, views, i as nat).instructions,
            invariant
                views == command_views(commands@),
            ensures
                instruction_views(instructions@) == build_prefix(
                    start,
                    views,
                    views.len(),
                ).instructions,
            decreases commands.len() - i,
        {
            let cmd = &commands[i];
            if ends_build(cmd) {
                proof {
                    lemma_stopped_stays(start, views, (i + 1) as nat, views.len());
                }
                break ;
            }
            match cmd {
                Command::FieldSeparator => {
                    if let Some(instruction) = flush(&state) {
                        instructions.push(instruction);
                    }
                    state.value = None;
                    state.instruction_type = None;
                    state.graphic_data = None;
                    state.reverse = false;
                },
                _ => {
                    apply(&mut state, cmd);
                },
            }
            i += 1;
        }
        Ok(instructions)
    }
}

/// Once stopped, a build does not move.
pub proof fn lemma_stopped_stays(start: StateView, commands: Seq<CommandView>, n: nat, m: nat)
    requires
        n <= m,
        build_prefix(start, commands, n).stopped,
    ensures
        build_prefix(start, commands, m) == build_prefix(start, commands, n),
    decreases m,
{
    if n < m {
        lemma_stopped_stays(start, commands, n, (m - 1) as nat);
    }
}

} // verus!
