//! The modal state that the instruction builder carries from command to command.

use vstd::prelude::*;
use crate::text::opt_chars;

verus! {

/// Where the next field is drawn.
pub struct ZplInstructionPosition {
    pub x: u32,
    pub y: u32,
}

/// The typeset offset, summed over all typeset commands.
pub struct ZplInstructionTypeset {
    pub x: u32,
    pub y: u32,
}

/// Sizes in dots. What `thickness` means depends on the kind of field: a border
/// thickness, a module width, or a magnification.
pub struct ZplInstructionMetrics {
    pub width: u32,
    pub height: u32,
    pub thickness: u32,
}

/// Flags and letters that persist until a command overwrites them.
pub struct ZplInstructionAttributes {
    pub orientation: Option<char>,
    pub interpretation_line: Option<char>,
    pub interpretation_above: Option<char>,
    pub check_digit: Option<char>,
    pub mode: Option<char>,
    pub error_correction: Option<char>,
    pub line_color: Option<char>,
    pub custom_line_color: Option<String>,
}

/// Parameters of particular drawing algorithms. The bar ratio is kept as written.
pub struct ZplInstructionParams {
    pub rounding: u32,
    pub model: u32,
    pub mask: u32,
    pub ratio: Option<String>,
}

/// The current font.
pub struct ZplInstructionFont {
    pub font_name: char,
    pub orientation: Option<char>,
    pub height: Option<u32>,
    pub width: Option<u32>,
    pub color: Option<String>,
}

/// The kind of instruction that the next field separator emits.
#[derive(Debug, Clone, Copy, PartialEq, Eq, Structural)]
pub enum ZplInstructionType {
    Text,
    GraphicBox,
    GraphicCircle,
    GraphicEllipse,
    GraphicField,
    Code128,
    QRCode,
    Code39,
    CustomImage,
}

/// Everything the builder remembers.
pub struct ZplInstructionState {
    pub position: ZplInstructionPosition,
    pub typeset: ZplInstructionTypeset,
    pub metrics: ZplInstructionMetrics,
    /// The defaults for barcodes; a field separator does not reset them.
    pub barcode_metrics: ZplInstructionMetrics,
    pub attributes: ZplInstructionAttributes,
    pub params: ZplInstructionParams,
    pub font: ZplInstructionFont,
    /// Whether the current field prints in reverse; reset at each field separator.
    pub reverse: bool,
    /// The pending text or barcode data; cleared at each field separator.
    pub value: Option<String>,
    /// The pending decoded bitmap; cleared at each field separator.
    pub graphic_data: Option<Vec<u8>>,
    /// The pending kind of instruction; cleared at each field separator.
    pub instruction_type: Option<ZplInstructionType>,
}

/// The mathematical value of [`ZplInstructionAttributes`].
pub struct AttributesView {
    pub orientation: Option<char>,
    pub interpretation_line: Option<char>,
    pub interpretation_above: Option<char>,
    pub check_digit: Option<char>,
    pub mode: Option<char>,
    pub error_correction: Option<char>,
    pub line_color: Option<char>,
    pub custom_line_color: Option<Seq<char>>,
}

/// The mathematical value of [`ZplInstructionParams`].
pub struct ParamsView {
    pub rounding: u32,
    pub model: u32,
    pub mask: u32,
    pub ratio: Option<Seq<char>>,
}

/// The mathematical value of [`ZplInstructionFont`].
pub struct FontView {
    pub font_name: char,
    pub orientation: Option<char>,
    pub height: Option<u32>,
    pub width: Option<u32>,
    pub color: Option<Seq<char>>,
}

/// The mathematical value of [`ZplInstructionState`].
pub struct StateView {
    pub position: ZplInstructionPosition,
    pub typeset: ZplInstructionTypeset,
    pub metrics: ZplInstructionMetrics,
    pub barcode_metrics: ZplInstructionMetrics,
    pub attributes: AttributesView,
    pub params: ParamsView,
    pub font: FontView,
    pub reverse: bool,
    pub value: Option<Seq<char>>,
    pub graphic_data: Option<Seq<u8>>,
    pub instruction_type: Option<ZplInstructionType>,
}

impl View for ZplInstructionAttributes {
    type V = AttributesView;

    open spec fn view(&self) -> AttributesView {
        AttributesView {
            orientation: self.orientation,
            interpretation_line: self.interpretation_line,
            interpretation_above: self.interpretation_above,
            check_digit: self.check_digit,
            mode: self.mode,
            error_correction: self.error_correction,
            line_color: self.line_color,
            custom_line_color: opt_chars(self.custom_line_color),
        }
    }
}

impl View for ZplInstructionParams {
    type V = ParamsView;

    open spec fn view(&self) -> ParamsView {
        ParamsView {
            rounding: self.rounding,
            model: self.model,
            mask: self.mask,
            ratio: opt_chars(self.ratio),
        }
    }
}

impl View for ZplInstructionFont {
    type V = FontView;

    open spec fn view(&self) -> FontView {
        FontView {
            font_name: self.font_name,
            orientation: self.orientation,
            height: self.height,
            width: self.width,
            color: opt_chars(self.color),
        }
    }
}

/// The bytes of an optional buffer.
pub open spec fn opt_bytes(b: Option<Vec<u8>>) -> Option<Seq<u8>> {
    match b {
        Some(v) => Some(v@),
        None => None,
    }
}

impl View for ZplInstructionState {
    type V = StateView;

    open spec fn view(&self) -> StateView {
        StateView {
            position: self.position,
            typeset: self.typeset,
            metrics: self.metrics,
            barcode_metrics: self.barcode_metrics,
            attributes: self.attributes@,
            params: self.params@,
            font: self.font@,
            reverse: self.reverse,
            value: opt_chars(self.value),
            graphic_data: opt_bytes(self.graphic_data),
            instruction_type: self.instruction_type,
        }
    }
}

/// The state before the first command: all numbers zero, all options absent, the font
/// name the null character.
pub open spec fn initial_state_view() -> StateView {
    StateView {
        position: ZplInstructionPosition { x: 0, y: 0 },
        typeset: ZplInstructionTypeset { x: 0, y: 0 },
        metrics: ZplInstructionMetrics { width: 0, height: 0, thickness: 0 },
        barcode_metrics: ZplInstructionMetrics { width: 0, height: 0, thickness: 0 },
        attributes: AttributesView {
            orientation: None,
            interpretation_line: None,
            interpretation_above: None,
            check_digit: None,
            mode: None,
            error_correction: None,
            line_color: None,
            custom_line_color: None,
        },
        params: ParamsView { rounding: 0, model: 0, mask: 0, ratio: None },
        font: FontView { font_name: '\0', orientation: None, height: None, width: None, color: None },
        reverse: false,
        value: None,
        graphic_data: None,
        instruction_type: None,
    }
}

impl Default for ZplInstructionPosition {
    fn default() -> (r: Self)
        ensures
            r == (ZplInstructionPosition { x: 0, y: 0 }),
    {
        ZplInstructionPosition { x: 0, y: 0 }
    }
}

impl Default for ZplInstructionTypeset {
    fn default() -> (r: Self)
        ensures
            r == (ZplInstructionTypeset { x: 0, y: 0 }),
    {
        ZplInstructionTypeset { x: 0, y: 0 }
    }
}

impl Default for ZplInstructionMetrics {
    fn default() -> (r: Self)
        ensures
            r == (ZplInstructionMetrics { width: 0, height: 0, thickness: 0 }),
    {
        ZplInstructionMetrics { width: 0, height: 0, thickness: 0 }
    }
}

impl Default for ZplInstructionAttributes {
    fn default() -> (r: Self)
        ensures
            r@ == initial_state_view().attributes,
    {
        ZplInstructionAttributes {
            orientation: None,
            interpretation_line: None,
            interpretation_above: None,
            check_digit: None,
            mode: None,
            error_correction: None,
            line_color: None,
            custom_line_color: None,
        }
    }
}

impl Default for ZplInstructionParams {
    fn default() -> (r: Self)
        ensures
            r@ == initial_state_view().params,
    {
        ZplInstructionParams { rounding: 0, model: 0, mask: 0, ratio: None }
    }
}

impl Default for ZplInstructionFont {
    fn default() -> (r: Self)
        ensures
            r@ == initial_state_view().font,
    {
        ZplInstructionFont { font_name: '\0', orientation: None, height: None, width: None, color: None }
    }
}

impl Default for ZplInstructionState {
    fn default() -> (r: Self)
        ensures
            r@ == initial_state_view(),
    {
        ZplInstructionState {
            position: ZplInstructionPosition::default(),
            typeset: ZplInstructionTypeset::default(),
            metrics: ZplInstructionMetrics::default(),
            barcode_metrics: ZplInstructionMetrics::default(),
            attributes: ZplInstructionAttributes::default(),
            params: ZplInstructionParams::default(),
            font: ZplInstructionFont::default(),
            reverse: false,
            value: None,
            graphic_data: None,
            instruction_type: None,
        }
    }
}

} // verus!
