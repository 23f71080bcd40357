//! The commands of the label language, as the grammar produces them.

use vstd::prelude::*;
use crate::text::opt_chars;
use super::commons::{Justification, YesNo};

verus! {

/// One command of a label. Parameters that the text may leave out are optional here;
/// the instruction builder fills in the defaults.
#[derive(Debug, Clone)]
pub enum Command {
    /// `^XA`: a label format starts.
    StartFormat,
    /// `^XZ`: a label format ends.
    EndFormat,
    /// `^LH`: the home position of the label.
    LabelHome { x: Option<u32>, y: Option<u32> },
    /// `^LL`: the length of the label in dots.
    LabelLength { length: Option<u32> },
    /// `^FO`: the origin of the next field.
    FieldOrigin { x: Option<u32>, y: Option<u32> },
    /// `^FT`: a typeset offset for the next field.
    FieldTypeset { x: Option<u32>, y: Option<u32> },
    /// `^FS`: the field ends.
    FieldSeparator,
    /// `^LR`: the whole label is printed in reverse.
    LabelReverse { reverse: Option<YesNo> },
    /// `^FX`: a comment.
    Comment { text: String },
    /// `^A`: the font of the next text, with its orientation.
    FontSpecFull { font_name: char, orientation: Option<char>, height: Option<u32>, width: Option<u32> },
    /// `^CF`: the default font.
    FontSpec { font_name: char, height: Option<u32>, width: Option<u32> },
    /// `^FD`: the data of the field.
    FieldData { data: String },
    /// `^FB`: a text block.
    FieldBlock {
        width: Option<u32>,
        max_lines: Option<u32>,
        line_spacing: Option<u32>,
        justification: Option<Justification>,
        indent: Option<u32>,
    },
    /// `^CI`: the international character set.
    ChangeIntFont { charset: Option<u32> },
    /// `^FR`: the field is printed in reverse.
    FieldReverse,
    /// `^GB`: a box or a line.
    GraphicBox {
        width: u32,
        height: u32,
        border_thickness: Option<u32>,
        line_color: Option<char>,
        corner_rounding: Option<u32>,
    },
    /// `^GC`: a circle.
    GraphicCircle { diameter: Option<u32>, border_thickness: Option<u32>, line_color: Option<char> },
    /// `^GE`: an ellipse.
    GraphicEllipse {
        width: Option<u32>,
        height: Option<u32>,
        border_thickness: Option<u32>,
        line_color: Option<char>,
    },
    /// `^GF`: a raw bitmap.
    GraphicField {
        compression_type: Option<char>,
        binary_byte_count: Option<u32>,
        graphic_field_count: Option<u32>,
        bytes_per_row: Option<u32>,
        data: String,
    },
    /// `^GIC`: a colour image, base64 encoded (an extension).
    CustomImage { width: u32, height: u32, data: String },
    /// `^GTC`: the colour of the following text (an extension).
    GraphicTextColor { color: String },
    /// `^GLC`: the colour of the following graphics (an extension).
    GraphicLineColor { color: String },
    /// `^BC`: a Code 128 barcode.
    Code128 {
        orientation: Option<char>,
        height: Option<u32>,
        interpretation_line: Option<char>,
        interpretation_line_above: Option<char>,
        check_digit: Option<char>,
        mode: Option<char>,
    },
    /// `^BQ`: a QR code.
    QRCode {
        orientation: Option<char>,
        model: Option<u32>,
        magnification: Option<u32>,
        error_correction: Option<char>,
        mask: Option<u32>,
    },
    /// `^B3`: a Code 39 barcode.
    Code39 {
        orientation: Option<char>,
        check_digit: Option<char>,
        height: Option<u32>,
        interpretation_line: Option<char>,
        interpretation_line_above: Option<char>,
    },
    /// `^BY`: the defaults of the following barcodes. The ratio is kept as it was
    /// written: digits, optionally followed by a point and more digits.
    BarcodeDefault { module_width: Option<u32>, ratio: Option<String>, height: Option<u32> },
    /// `^BX`: a Data Matrix barcode.
    DataMatrix {
        orientation: Option<char>,
        height: Option<u32>,
        quality: Option<u32>,
        columns: Option<u32>,
        rows: Option<u32>,
    },
    /// `^B7`: a PDF417 barcode.
    Pdf417 {
        orientation: Option<char>,
        height: Option<u32>,
        security_level: Option<u32>,
        columns: Option<u32>,
        rows: Option<u32>,
        truncate: Option<YesNo>,
    },
    /// Any other command: its code and its arguments as they were written.
    UnsupportedCommand { command: String, args: String },
}

/// The mathematical value of a [`Command`].
pub enum CommandView {
    StartFormat,
    EndFormat,
    LabelHome { x: Option<u32>, y: Option<u32> },
    LabelLength { length: Option<u32> },
    FieldOrigin { x: Option<u32>, y: Option<u32> },
    FieldTypeset { x: Option<u32>, y: Option<u32> },
    FieldSeparator,
    LabelReverse { reverse: Option<YesNo> },
    Comment { text: Seq<char> },
    FontSpecFull { font_name: char, orientation: Option<char>, height: Option<u32>, width: Option<u32> },
    FontSpec { font_name: char, height: Option<u32>, width: Option<u32> },
    FieldData { data: Seq<char> },
    FieldBlock {
        width: Option<u32>,
        max_lines: Option<u32>,
        line_spacing: Option<u32>,
        justification: Option<Justification>,
        indent: Option<u32>,
    },
    ChangeIntFont { charset: Option<u32> },
    FieldReverse,
    GraphicBox {
        width: u32,
        height: u32,
        border_thickness: Option<u32>,
        line_color: Option<char>,
        corner_rounding: Option<u32>,
    },
    GraphicCircle { diameter: Option<u32>, border_thickness: Option<u32>, line_color: Option<char> },
    GraphicEllipse {
        width: Option<u32>,
        height: Option<u32>,
        border_thickness: Option<u32>,
        line_color: Option<char>,
    },
    GraphicField {
        compression_type: Option<char>,
        binary_byte_count: Option<u32>,
        graphic_field_count: Option<u32>,
        bytes_per_row: Option<u32>,
        data: Seq<char>,
    },
    CustomImage { width: u32, height: u32, data: Seq<char> },
    GraphicTextColor { color: Seq<char> },
    GraphicLineColor { color: Seq<char> },
    Code128 {
        orientation: Option<char>,
        height: Option<u32>,
        interpretation_line: Option<char>,
        interpretation_line_above: Option<char>,
        check_digit: Option<char>,
        mode: Option<char>,
    },
    QRCode {
        orientation: Option<char>,
        model: Option<u32>,
        magnification: Option<u32>,
        error_correction: Option<char>,
        mask: Option<u32>,
    },
    Code39 {
        orientation: Option<char>,
        check_digit: Option<char>,
        height: Option<u32>,
        interpretation_line: Option<char>,
        interpretation_line_above: Option<char>,
    },
    BarcodeDefault { module_width: Option<u32>, ratio: Option<Seq<char>>, height: Option<u32> },
    DataMatrix {
        orientation: Option<char>,
        height: Option<u32>,
        quality: Option<u32>,
        columns: Option<u32>,
        rows: Option<u32>,
    },
    Pdf417 {
        orientation: Option<char>,
        height: Option<u32>,
        security_level: Option<u32>,
        columns: Option<u32>,
        rows: Option<u32>,
        truncate: Option<YesNo>,
    },
    UnsupportedCommand { command: Seq<char>, args: Seq<char> },
}

impl View for Command {
    type V = CommandView;

    open spec fn view(&self) -> CommandView {
        match *self {
            Command::StartFormat => CommandView::StartFormat,
            Command::EndFormat => CommandView::EndFormat,
            Command::LabelHome { x, y } => CommandView::LabelHome { x, y },
            Command::LabelLength { length } => CommandView::LabelLength { length },
            Command::FieldOrigin { x, y } => CommandView::FieldOrigin { x, y },
            Command::FieldTypeset { x, y } => CommandView::FieldTypeset { x, y },
            Command::FieldSeparator => CommandView::FieldSeparator,
            Command::LabelReverse { reverse } => CommandView::LabelReverse { reverse },
            Command::Comment { text } => CommandView::Comment { text: text@ },
            Command::FontSpecFull { font_name, orientation, height, width } => CommandView::FontSpecFull {
                font_name,
                orientation,
                height,
                width,
            },
            Command::FontSpec { font_name, height, width } => CommandView::FontSpec {
                font_name,
                height,
                width,
            },
            Command::FieldData { data } => CommandView::FieldData { data: data@ },
            Command::FieldBlock { width, max_lines, line_spacing, justification, indent } => CommandView::FieldBlock {
                width,
                max_lines,
                line_spacing,
                justification,
                indent,
            },
            Command::ChangeIntFont { charset } => CommandView::ChangeIntFont { charset },
            Command::FieldReverse => CommandView::FieldReverse,
            Command::GraphicBox { width, height, border_thickness, line_color, corner_rounding } => CommandView::GraphicBox {
                width,
                height,
                border_thickness,
                line_color,
                corner_rounding,
            },
            Command::GraphicCircle { diameter, border_thickness, line_color } => CommandView::GraphicCircle {
                diameter,
                border_thickness,
                line_color,
            },
            Command::GraphicEllipse { width, height, border_thickness, line_color } => CommandView::GraphicEllipse {
                width,
                height,
                border_thickness,
                line_color,
            },
            Command::GraphicField {
                compression_type,
                binary_byte_count,
                graphic_field_count,
                bytes_per_row,
                data,
            } => CommandView::GraphicField {
                compression_type,
                binary_byte_count,
                graphic_field_count,
                bytes_per_row,
                data: data@,
            },
            Command::CustomImage { width, height, data } => CommandView::CustomImage {
                width,
                height,
                data: data@,
            },
            Command::GraphicTextColor { color } => CommandView::GraphicTextColor { color: color@ },
            Command::GraphicLineColor { color } => CommandView::GraphicLineColor { color: color@ },
            Command::Code128 {
                orientation,
                height,
                interpretation_line,
                interpretation_line_above,
                check_digit,
                mode,
            } => CommandView::Code128 {
                orientation,
                height,
                interpretation_line,
                interpretation_line_above,
                check_digit,
                mode,
            },
            Command::QRCode { orientation, model, magnification, error_correction, mask } => CommandView::QRCode {
                orientation,
                model,
                magnification,
                error_correction,
                mask,
            },
            Command::Code39 {
                orientation,
                check_digit,
                height,
                interpretation_line,
                interpretation_line_above,
            } => CommandView::Code39 {
                orientation,
                check_digit,
                height,
                interpretation_line,
                interpretation_line_above,
            },
            Command::BarcodeDefault { module_width, ratio, height } => CommandView::BarcodeDefault {
                module_width,
                ratio: opt_chars(ratio),
                height,
            },
            Command::DataMatrix { orientation, height, quality, columns, rows } => CommandView::DataMatrix {
                orientation,
                height,
                quality,
                columns,
                rows,
            },
            Command::Pdf417 { orientation, height, security_level, columns, rows, truncate } => CommandView::Pdf417 {
                orientation,
                height,
                security_level,
                columns,
                rows,
                truncate,
            },
            Command::UnsupportedCommand { command, args } => CommandView::UnsupportedCommand {
                command: command@,
                args: args@,
            },
        }
    }
}

/// The values of a list of commands, in order.
pub open spec fn command_views(commands: Seq<Command>) -> Seq<CommandView> {
    Seq::new(commands.len(), |i: int| commands[i]@)
}

} // verus!
