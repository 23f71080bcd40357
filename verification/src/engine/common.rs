//! The drawing instructions that the builder produces.

use vstd::prelude::*;
use crate::text::opt_chars;

verus! {

/// One self-contained drawing instruction. Every value is resolved: coordinates are
/// absolute and defaults are filled in. The order of instructions is the draw order.
#[derive(Debug)]
pub enum ZplInstruction {
    /// A line of text.
    Text {
        x: u32,
        y: u32,
        font: char,
        height: Option<u32>,
        width: Option<u32>,
        text: String,
        reverse_print: bool,
        color: Option<String>,
    },
    /// A box or a line.
    GraphicBox {
        x: u32,
        y: u32,
        width: u32,
        height: u32,
        thickness: u32,
        color: char,
        custom_color: Option<String>,
        rounding: u32,
        reverse_print: bool,
    },
    /// A circle.
    GraphicCircle {
        x: u32,
        y: u32,
        radius: u32,
        thickness: u32,
        color: char,
        custom_color: Option<String>,
        reverse_print: bool,
    },
    /// An ellipse.
    GraphicEllipse {
        x: u32,
        y: u32,
        width: u32,
        height: u32,
        thickness: u32,
        color: char,
        custom_color: Option<String>,
        reverse_print: bool,
    },
    /// A bitmap, one bit per pixel.
    GraphicField { x: u32, y: u32, width: u32, height: u32, data: Vec<u8>, reverse_print: bool },
    /// A colour image, base64 encoded. A width or height of zero asks for the natural size.
    CustomImage { x: u32, y: u32, width: u32, height: u32, data: String },
    /// A Code 128 barcode.
    Code128 {
        x: u32,
        y: u32,
        orientation: char,
        height: u32,
        module_width: u32,
        interpretation_line: char,
        interpretation_line_above: char,
        check_digit: char,
        mode: char,
        data: String,
        reverse_print: bool,
    },
    /// A QR code.
    QRCode {
        x: u32,
        y: u32,
        orientation: char,
        model: u32,
        magnification: u32,
        error_correction: char,
        mask: u32,
        data: String,
        reverse_print: bool,
    },
    /// A Code 39 barcode.
    Code39 {
        x: u32,
        y: u32,
        orientation: char,
        check_digit: char,
        height: u32,
        module_width: u32,
        interpretation_line: char,
        interpretation_line_above: char,
        data: String,
        reverse_print: bool,
    },
}

/// The mathematical value of a [`ZplInstruction`].
pub enum InstructionView {
    Text {
        x: u32,
        y: u32,
        font: char,
        height: Option<u32>,
        width: Option<u32>,
        text: Seq<char>,
        reverse_print: bool,
        color: Option<Seq<char>>,
    },
    GraphicBox {
        x: u32,
        y: u32,
        width: u32,
        height: u32,
        thickness: u32,
        color: char,
        custom_color: Option<Seq<char>>,
        rounding: u32,
        reverse_print: bool,
    },
    GraphicCircle {
        x: u32,
        y: u32,
        radius: u32,
        thickness: u32,
        color: char,
        custom_color: Option<Seq<char>>,
        reverse_print: bool,
    },
    GraphicEllipse {
        x: u32,
        y: u32,
        width: u32,
        height: u32,
        thickness: u32,
        color: char,
        custom_color: Option<Seq<char>>,
        reverse_print: bool,
    },
    GraphicField { x: u32, y: u32, width: u32, height: u32, data: Seq<u8>, reverse_print: bool },
    CustomImage { x: u32, y: u32, width: u32, height: u32, data: Seq<char> },
    Code128 {
        x: u32,
        y: u32,
        orientation: char,
        height: u32,
        module_width: u32,
        interpretation_line: char,
        interpretation_line_above: char,
        check_digit: char,
        mode: char,
        data: Seq<char>,
        reverse_print: bool,
    },
    QRCode {
        x: u32,
        y: u32,
        orientation: char,
        model: u32,
        magnification: u32,
        error_correction: char,
        mask: u32,
        data: Seq<char>,
        reverse_print: bool,
    },
    Code39 {
        x: u32,
        y: u32,
        orientation: char,
        check_digit: char,
        height: u32,
        module_width: u32,
        interpretation_line: char,
        interpretation_line_above: char,
        data: Seq<char>,
        reverse_print: bool,
    },
}

impl View for ZplInstruction {
    type V = InstructionView;

    open spec fn view(&self) -> InstructionView {
        match *self {
            ZplInstruction::Text { x, y, font, height, width, text, reverse_print, color } => InstructionView::Text {
                x,
                y,
                font,
                height,
                width,
                text: text@,
                reverse_print,
                color: opt_chars(color),
            },
            ZplInstruction::GraphicBox {
                x,
                y,
                width,
                height,
                thickness,
                color,
                custom_color,
                rounding,
                reverse_print,
            } => InstructionView::GraphicBox {
                x,
                y,
                width,
                height,
                thickness,
                color,
                custom_color: opt_chars(custom_color),
                rounding,
                reverse_print,
            },
            ZplInstruction::GraphicCircle {
                x,
                y,
                radius,
                thickness,
                color,
                custom_color,
                reverse_print,
            } => InstructionView::GraphicCircle {
                x,
                y,
                radius,
                thickness,
                color,
                custom_color: opt_chars(custom_color),
                reverse_print,
            },
            ZplInstruction::GraphicEllipse {
                x,
                y,
                width,
                height,
                thickness,
                color,
                custom_color,
                reverse_print,
            } => InstructionView::GraphicEllipse {
                x,
                y,
                width,
                height,
                thickness,
                color,
                custom_color: opt_chars(custom_color),
                reverse_print,
            },
            ZplInstruction::GraphicField { x, y, width, height, data, reverse_print } => InstructionView::GraphicField {
                x,
                y,
                width,
                height,
                data: data@,
                reverse_print,
            },
            ZplInstruction::CustomImage { x, y, width, height, data } => InstructionView::CustomImage {
                x,
                y,
                width,
                height,
                data: data@,
            },
            ZplInstruction::Code128 {
                x,
                y,
                orientation,
                height,
                module_width,
                interpretation_line,
                interpretation_line_above,
                check_digit,
                mode,
                data,
                reverse_print,
            } => InstructionView::Code128 {
                x,
                y,
                orientation,
                height,
                module_width,
                interpretation_line,
                interpretation_line_above,
                check_digit,
                mode,
                data: data@,
                reverse_print,
            },
            ZplInstruction::QRCode {
                x,
                y,
                orientation,
                model,
                magnification,
                error_correction,
                mask,
                data,
                reverse_print,
            } => InstructionView::QRCode {
                x,
                y,
                orientation,
                model,
                magnification,
                error_correction,
                mask,
                data: data@,
                reverse_print,
            },
            ZplInstruction::Code39 {
                x,
                y,
                orientation,
                check_digit,
                height,
                module_width,
                interpretation_line,
                interpretation_line_above,
                data,
                reverse_print,
            } => InstructionView::Code39 {
                x,
                y,
                orientation,
                check_digit,
                height,
                module_width,
                interpretation_line,
                interpretation_line_above,
                data: data@,
                reverse_print,
            },
        }
    }
}

/// The values of a list of instructions, in order.
pub open spec fn instruction_views(instructions: Seq<ZplInstruction>) -> Seq<InstructionView> {
    Seq::new(instructions.len(), |i: int| instructions[i]@)
}

} // verus!
