//! Barcodes: the symbols come from the `rxing` crate as rows and matrices of modules, and
//! are laid out here as rectangles on the drawing surface.

use vstd::prelude::*;
use crate::error::{ZplError, ZplErrorView, ZplResult};
use crate::text::{decimal_text, opt_chars, push_decimal, push_str};
use rxing::{BarcodeFormat, EncodeHints, MultiFormatWriter, Writer};
use super::layout::{
    bar_of, bar_rect, barcode_extent, code128_code_set, code_data_of, code_set_of, extent_of,
    module_of, module_rect, module_size, qr_level, qr_level_of, Placed,
};

verus! {

/// The quiet zone around a QR code, in modules. The label positions the code itself.
pub const QR_MARGIN: u32 = 0;

/// The kinds of symbol that labels carry.
#[derive(Debug, Clone, Copy, PartialEq, Eq, Structural)]
pub enum Symbology {
    Code128,
    Code39,
    QrCode,
}

/// The hints that go with the data of a symbol, as the encoder reads them. What is
/// absent is left to the encoder.
pub struct SymbolHints {
    /// The code set that a Code 128 symbol is forced into: `A`, `B` or `C`.
    pub code_set: Option<String>,
    /// The error correction level of a QR code: `L`, `M`, `Q` or `H`.
    pub level: Option<String>,
    /// The quiet zone in modules, as a decimal numeral.
    pub margin: Option<String>,
}

/// The mathematical value of [`SymbolHints`].
pub struct SymbolHintsView {
    pub code_set: Option<Seq<char>>,
    pub level: Option<Seq<char>>,
    pub margin: Option<Seq<char>>,
}

impl View for SymbolHints {
    type V = SymbolHintsView;

    open spec fn view(&self) -> SymbolHintsView {
        SymbolHintsView {
            code_set: opt_chars(self.code_set),
            level: opt_chars(self.level),
            margin: opt_chars(self.margin),
        }
    }
}

/// The widest quiet zone that is asked for, in modules.
pub const MAX_MARGIN: u32 = 64;

/// Whether a margin can be handed to the encoder: none for bar codes, and for a QR code
/// none or the numeral of at most `MAX_MARGIN` modules.
pub open spec fn margin_fits(symbology: Symbology, margin: Option<Seq<char>>) -> bool {
    match margin {
        Some(text) => symbology == Symbology::QrCode && exists|n: nat|
            n <= MAX_MARGIN && text == #[trigger] decimal_text(n),
        None => true,
    }
}

/// The symbol that `rxing` encodes for the given data and hints, at its natural size: its
/// width, its height and its modules row by row, `true` for a dark module. Or the text of
/// the encoder's error.
pub uninterp spec fn symbol_modules(data: Seq<char>, symbology: Symbology, hints: SymbolHintsView) -> Result<
    (u32, u32, Seq<bool>),
    Seq<char>,
>;

/// The value of a matrix of modules or an error text.
pub open spec fn matrix_view(r: Result<(u32, u32, Vec<bool>), String>) -> Result<
    (u32, u32, Seq<bool>),
    Seq<char>,
> {
    match r {
        Ok((width, height, modules)) => Ok((width, height, modules@)),
        Err(text) => Err(text@),
    }
}

/// Encodes a symbol with `rxing::MultiFormatWriter::encode_with_hints`, at the symbol's
/// natural size, and reads its modules with `BitMatrix::get`, row by row. The hints are
/// passed on as `ForceCodeSet`, `ErrorCorrection` and `Margin`. A margin goes with QR
/// codes only and is a small numeral: the writers of the bar codes do not return on a
/// margin that is no numeral, and the size of a QR code is computed in 32 bits. The
/// contract claims that the outcome depends on the data, the kind of
/// symbol and the hints alone. On failure the text is the encoder's own description of
/// its error.
#[verifier::external_body]
fn encode_symbol(data: &str, symbology: Symbology, hints: SymbolHints) -> (r: Result<
    (u32, u32, Vec<bool>),
    String,
>)
    requires
        margin_fits(symbology, hints@.margin),
    ensures
        matrix_view(r) == symbol_modules(data@, symbology, hints@),
{
    let format = match symbology {
        Symbology::Code128 => BarcodeFormat::CODE_128,
        Symbology::Code39 => BarcodeFormat::CODE_39,
        Symbology::QrCode => BarcodeFormat::QR_CODE,
    };
    let SymbolHints { code_set, level, margin } = hints;
    let given = EncodeHints { ForceCodeSet: code_set, ErrorCorrection: level, Margin: margin, ..EncodeHints::default() };
    match MultiFormatWriter.encode_with_hints(data, &format, 0, 0, &given) {
        Ok(m) => Ok((m.getWidth(), m.getHeight(), (0..m.getHeight()).flat_map(|y| (0..m.getWidth()).map(move |x| (x, y))).map(|q| m.get(q.0, q.1)).collect())),
        Err(e) => Err(e.to_string()),
    }
}

/// A string of one character.
fn letter(c: char) -> (s: String)
    ensures
        s@ == seq![c],
{
    let mut s = String::new();
    s.push(c);
    s
}

/// An optional string of one character.
fn optional_letter(c: Option<char>) -> (s: Option<String>)
    ensures
        opt_chars(s) == letter_text(c),
{
    match c {
        Some(c) => Some(letter(c)),
        None => None,
    }
}

/// The text of an optional letter.
pub open spec fn letter_text(c: Option<char>) -> Option<Seq<char>> {
    match c {
        Some(c) => Some(seq![c]),
        None => None,
    }
}

/// A barcode laid out on the drawing surface.
pub struct BarcodePlan {
    /// The rectangles to fill, in the order of the modules.
    pub bars: Vec<Placed>,
    /// The width that the barcode takes up.
    pub full_width: u32,
    /// The height that the barcode takes up.
    pub full_height: u32,
}

/// The mathematical value of a [`BarcodePlan`].
pub struct BarcodePlanView {
    pub bars: Seq<Placed>,
    pub full_width: u32,
    pub full_height: u32,
}

impl View for BarcodePlan {
    type V = BarcodePlanView;

    open spec fn view(&self) -> BarcodePlanView {
        BarcodePlanView {
            bars: self.bars@,
            full_width: self.full_width,
            full_height: self.full_height,
        }
    }
}

/// The width of a barcode in dots, and the largest number if it is wider than that.
pub open spec fn symbol_width(columns: u32, module_width: u32) -> u32 {
    if columns * module_size(module_width) > u32::MAX {
        u32::MAX
    } else {
        (columns * module_size(module_width)) as u32
    }
}

/// The rectangles of the bars among the first `n` modules of a barcode of `columns`
/// modules, in order. Modules that the list does not reach are spaces.
pub open spec fn bars_upto(
    columns: u32,
    modules: Seq<bool>,
    n: nat,
    orientation: char,
    x: u32,
    y: u32,
    module_width: u32,
    height: u32,
) -> Seq<Placed>
    decreases n,
{
    if n == 0 {
        Seq::empty()
    } else {
        let before = bars_upto(
            columns,
            modules,
            (n - 1) as nat,
            orientation,
            x,
            y,
            module_width,
            height,
        );
        let index = (n - 1) as u32;
        match bar_of(orientation, x, y, index, columns, module_width, height) {
            Some(bar) if n <= modules.len() && modules[n - 1] => before.push(bar),
            _ => before,
        }
    }
}

/// A barcode with its top left corner at `(x, y)`: one rectangle per bar, turned as the
/// orientation says, and the width and height that the turned barcode takes up. The
/// bars are the dark modules of the first row of the symbol.
pub open spec fn bars_plan(
    columns: u32,
    modules: Seq<bool>,
    orientation: char,
    x: u32,
    y: u32,
    module_width: u32,
    height: u32,
) -> BarcodePlanView {
    let extent = extent_of(orientation, symbol_width(columns, module_width), height);
    BarcodePlanView {
        bars: bars_upto(columns, modules, columns as nat, orientation, x, y, module_width, height),
        full_width: extent.0,
        full_height: extent.1,
    }
}

/// Lays out the first row of a symbol as a barcode.
pub fn plan_bars(
    columns: u32,
    modules: &Vec<bool>,
    orientation: char,
    x: u32,
    y: u32,
    module_width: u32,
    height: u32,
) -> (plan: BarcodePlan)
    ensures
        plan@ == bars_plan(columns, modules@, orientation, x, y, module_width, height),
{
    let side: u32 = if module_width < 1 {
        1
    } else {
        module_width
    };
    assert(columns * side <= 0xFFFF_FFFF * 0xFFFF_FFFF) by (nonlinear_arith)
        requires
            columns <= 0xFFFF_FFFF,
            side <= 0xFFFF_FFFF,
    ;
    let width: u32 = if columns as u64 * side as u64 > u32::MAX as u64 {
        u32::MAX
    } else {
        columns * side
    };
    let mut bars: Vec<Placed> = Vec::new();
    let mut index: u32 = 0;
    while index < columns
        invariant
            index <= columns,
            bars@ == bars_upto(
                columns,
                modules@,
                index as nat,
                orientation,
                x,
                y,
                module_width,
                height,
            ),
        decreases columns - index,
    {
        if (index as usize) < modules.len() && modules[index as usize] {
            if let Some(bar) = bar_rect(orientation, x, y, index, columns, module_width, height) {
                bars.push(bar);
            }
        }
        index += 1;
    }
    let (full_width, full_height) = barcode_extent(orientation, width, height);
    BarcodePlan { bars, full_width, full_height }
}

/// The value of a plan or an error.
pub open spec fn plan_view(r: ZplResult<BarcodePlan>) -> Result<BarcodePlanView, ZplErrorView> {
    match r {
        Ok(plan) => Ok(plan@),
        Err(e) => Err(e@),
    }
}

/// What becomes of the encoder's outcome for a barcode: the laid-out bars, or a backend
/// error that carries the encoder's text.
pub open spec fn bars_outcome(
    encoded: Result<(u32, u32, Seq<bool>), Seq<char>>,
    orientation: char,
    x: u32,
    y: u32,
    module_width: u32,
    height: u32,
) -> Result<BarcodePlanView, ZplErrorView> {
    match encoded {
        Ok((columns, _, modules)) => Ok(
            bars_plan(columns, modules, orientation, x, y, module_width, height),
        ),
        Err(text) => Err(ZplErrorView::BackendError("Barcode Generation Error: "@ + text)),
    }
}

/// Lays out the encoder's outcome for a barcode.
pub fn plan_encoded_bars(
    encoded: Result<(u32, u32, Vec<bool>), String>,
    orientation: char,
    x: u32,
    y: u32,
    module_width: u32,
    height: u32,
) -> (r: ZplResult<BarcodePlan>)
    ensures
        plan_view(r) == bars_outcome(matrix_view(encoded), orientation, x, y, module_width, height),
{
    match encoded {
        Ok((columns, _, modules)) => Ok(
            plan_bars(columns, &modules, orientation, x, y, module_width, height),
        ),
        Err(text) => {
            let mut message = String::new();
            push_str(&mut message, "Barcode Generation Error: ");
            push_str(&mut message, text.as_str());
            Err(ZplError::BackendError(message))
        },
    }
}

/// The hints of a Code 128 symbol: the code set that the data asks for, if any.
pub open spec fn code128_hints(data: Seq<char>) -> SymbolHintsView {
    SymbolHintsView { code_set: letter_text(code_set_of(data)), level: None, margin: None }
}

/// No hints.
pub open spec fn no_hints() -> SymbolHintsView {
    SymbolHintsView { code_set: None, level: None, margin: None }
}

/// The hints of a QR code: its error correction level, and no quiet zone.
pub open spec fn qr_hints(error_correction: char) -> SymbolHintsView {
    SymbolHintsView {
        code_set: None,
        level: Some(seq![qr_level_of(error_correction)]),
        margin: Some(decimal_text(QR_MARGIN as nat)),
    }
}

/// Lays out a Code 128 barcode. Two characters at the start of the data may ask for a
/// code set; they are not part of what is encoded.
pub fn code128_plan(x: u32, y: u32, orientation: char, height: u32, module_width: u32, data: &str) -> (r:
    ZplResult<BarcodePlan>)
    ensures
        plan_view(r) == bars_outcome(
            symbol_modules(code_data_of(data@), Symbology::Code128, code128_hints(data@)),
            orientation,
            x,
            y,
            module_width,
            height,
        ),
{
    let (clean, code_set) = code128_code_set(data);
    let hints = SymbolHints { code_set: optional_letter(code_set), level: None, margin: None };
    plan_encoded_bars(
        encode_symbol(clean.as_str(), Symbology::Code128, hints),
        orientation,
        x,
        y,
        module_width,
        height,
    )
}

/// Lays out a Code 39 barcode.
pub fn code39_plan(x: u32, y: u32, orientation: char, height: u32, module_width: u32, data: &str) -> (r:
    ZplResult<BarcodePlan>)
    ensures
        plan_view(r) == bars_outcome(
            symbol_modules(data@, Symbology::Code39, no_hints()),
            orientation,
            x,
            y,
            module_width,
            height,
        ),
{
    let hints = SymbolHints { code_set: None, level: None, margin: None };
    plan_encoded_bars(
        encode_symbol(data, Symbology::Code39, hints),
        orientation,
        x,
        y,
        module_width,
        height,
    )
}

/// The rectangles of the dark modules among the first `n` places of a matrix, row by row.
pub open spec fn modules_upto(
    width: u32,
    height: u32,
    modules: Seq<bool>,
    n: nat,
    orientation: char,
    x: u32,
    y: u32,
    magnification: u32,
) -> Seq<Placed>
    decreases n,
{
    if n == 0 || width == 0 {
        Seq::empty()
    } else {
        let before = modules_upto(
            width,
            height,
            modules,
            (n - 1) as nat,
            orientation,
            x,
            y,
            magnification,
        );
        let column = ((n - 1) % width as int) as u32;
        let row = ((n - 1) / width as int) as u32;
        match module_of(orientation, x, y, column, row, width, height, magnification) {
            Some(rect) if n <= modules.len() && modules[n - 1] => before.push(rect),
            _ => before,
        }
    }
}

/// A matrix code with its top left corner at `(x, y)`: one square per dark module,
/// turned as the orientation says.
pub open spec fn matrix_plan(
    width: u32,
    height: u32,
    modules: Seq<bool>,
    orientation: char,
    x: u32,
    y: u32,
    magnification: u32,
) -> Seq<Placed> {
    modules_upto(
        width,
        height,
        modules,
        (width * height) as nat,
        orientation,
        x,
        y,
        magnification,
    )
}

/// Lays out a matrix of modules, given row by row. Places that the list does not reach
/// are light.
pub fn plan_matrix(
    width: u32,
    height: u32,
    modules: &Vec<bool>,
    orientation: char,
    x: u32,
    y: u32,
    magnification: u32,
) -> (rects: Vec<Placed>)
    ensures
        rects@ == matrix_plan(width, height, modules@, orientation, x, y, magnification),
{
    let mut rects: Vec<Placed> = Vec::new();
    let total = modules.len();
    let mut row: u32 = 0;
    while row < height
        invariant
            row <= height,
            total == modules@.len(),
            rects@ == modules_upto(
                width,
                height,
                modules@,
                (row * width) as nat,
                orientation,
                x,
                y,
                magnification,
            ),
        decreases height - row,
    {
        let mut column: u32 = 0;
        assert((row + 1) * width <= 0xFFFF_FFFF * 0xFFFF_FFFF) by (nonlinear_arith)
            requires
                row < height,
                height <= 0xFFFF_FFFF,
                width <= 0xFFFF_FFFF,
        ;
        while column < width
            invariant
                column <= width,
                row < height,
                total == modules@.len(),
                (row + 1) * width <= 0xFFFF_FFFF * 0xFFFF_FFFF,
                rects@ == modules_upto(
                    width,
                    height,
                    modules@,
                    (row * width + column) as nat,
                    orientation,
                    x,
                    y,
                    magnification,
                ),
            decreases width - column,
        {
            assert(row * width + column < (row + 1) * width) by (nonlinear_arith)
                requires
                    column < width,
            ;
            let place: u64 = row as u64 * width as u64 + column as u64;
            proof {
                vstd::arithmetic::div_mod::lemma_fundamental_div_mod_converse(
                    place as int,
                    width as int,
                    row as int,
                    column as int,
                );
            }
            if place < total as u64 && modules[place as usize] {
                if let Some(rect) = module_rect(
                    orientation,
                    x,
                    y,
                    column,
                    row,
                    width,
                    height,
                    magnification,
                ) {
                    rects.push(rect);
                }
            }
            column += 1;
        }
        assert((row + 1) * width == row * width + width) by (nonlinear_arith);
        row += 1;
    }
    assert(row * width == width * height) by (nonlinear_arith)
        requires
            row == height,
    ;
    rects
}

/// What becomes of the encoder's outcome for a QR code: the laid-out modules, or a
/// backend error that carries the encoder's text.
pub open spec fn matrix_outcome(
    encoded: Result<(u32, u32, Seq<bool>), Seq<char>>,
    orientation: char,
    x: u32,
    y: u32,
    magnification: u32,
) -> Result<Seq<Placed>, ZplErrorView> {
    match encoded {
        Ok((width, height, modules)) => Ok(
            matrix_plan(width, height, modules, orientation, x, y, magnification),
        ),
        Err(text) => Err(ZplErrorView::BackendError("QR Generation Error: "@ + text)),
    }
}

/// The value of a list of rectangles or an error.
pub open spec fn rects_view(r: ZplResult<Vec<Placed>>) -> Result<Seq<Placed>, ZplErrorView> {
    match r {
        Ok(rects) => Ok(rects@),
        Err(e) => Err(e@),
    }
}

/// Lays out the encoder's outcome for a QR code.
pub fn plan_encoded_matrix(
    encoded: Result<(u32, u32, Vec<bool>), String>,
    orientation: char,
    x: u32,
    y: u32,
    magnification: u32,
) -> (r: ZplResult<Vec<Placed>>)
    ensures
        rects_view(r) == matrix_outcome(matrix_view(encoded), orientation, x, y, magnification),
{
    match encoded {
        Ok((width, height, modules)) => Ok(
            plan_matrix(width, height, &modules, orientation, x, y, magnification),
        ),
        Err(text) => {
            let mut message = String::new();
            push_str(&mut message, "QR Generation Error: ");
            push_str(&mut message, text.as_str());
            Err(ZplError::BackendError(message))
        },
    }
}

/// Lays out a QR code, without a quiet zone. An error correction level other than `L`,
/// `M`, `Q` and `H` counts as `M`.
pub fn qr_plan(
    x: u32,
    y: u32,
    orientation: char,
    magnification: u32,
    error_correction: char,
    data: &str,
) -> (r: ZplResult<Vec<Placed>>)
    ensures
        rects_view(r) == matrix_outcome(
            symbol_modules(data@, Symbology::QrCode, qr_hints(error_correction)),
            orientation,
            x,
            y,
            magnification,
        ),
{
    let mut margin = String::new();
    push_decimal(&mut margin, QR_MARGIN as usize);
    let hints = SymbolHints {
        code_set: None,
        level: Some(letter(qr_level(error_correction))),
        margin: Some(margin),
    };
    plan_encoded_matrix(
        encode_symbol(data, Symbology::QrCode, hints),
        orientation,
        x,
        y,
        magnification,
    )
}

} // verus!
