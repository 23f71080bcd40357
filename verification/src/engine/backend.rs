//! The interface between the engine and whatever draws: one operation per kind of
//! instruction, on a surface that the backend owns.

use vstd::prelude::*;
use crate::error::{ZplErrorView, ZplResult};
use super::common::{InstructionView, ZplInstruction};
use super::font::FontManager;

verus! {

/// One call that the engine makes to a backend.
pub enum BackendCall<P> {
    /// The page was set up for the given page description.
    SetupPage(P),
    /// The font registry was handed over.
    SetupFonts(FontManager),
    /// A drawing operation, with its arguments written as the instruction they draw, and
    /// the error that the backend answered with, if any.
    Draw(InstructionView, Option<ZplErrorView>),
    /// The output was asked for, and this is what the backend answered.
    Finalize(Result<Seq<u8>, ZplErrorView>),
}

/// The error of a drawing operation, if it failed.
pub open spec fn failure_of(r: ZplResult<()>) -> Option<ZplErrorView> {
    match r {
        Ok(_) => None,
        Err(e) => Some(e@),
    }
}

/// The value of the output of a backend.
pub open spec fn output_view(r: ZplResult<Vec<u8>>) -> Result<Seq<u8>, ZplErrorView> {
    match r {
        Ok(bytes) => Ok(bytes@),
        Err(e) => Err(e@),
    }
}

/// A drawing backend for pages described by `P`.
///
/// The engine calls `setup_page` and `setup_font_manager` once, then one drawing
/// operation per instruction in draw order, then `finalize`. Every value it passes is
/// absolute and resolved. Nothing is assumed of what an implementation does or returns.
pub trait ZplForgeBackend<P> {
    /// Prepares the drawing surface for a page.
    fn setup_page(&mut self, page: &P);

    /// Takes the fonts to draw text with.
    fn setup_font_manager(&mut self, font_manager: &FontManager);

    /// Draws a line of text.
    fn draw_text(
        &mut self,
        x: u32,
        y: u32,
        font: char,
        height: Option<u32>,
        width: Option<u32>,
        text: String,
        reverse_print: bool,
        color: Option<String>,
    ) -> ZplResult<()>;

    /// Draws a box.
    fn draw_graphic_box(
        &mut self,
        x: u32,
        y: u32,
        width: u32,
        height: u32,
        thickness: u32,
        color: char,
        custom_color: Option<String>,
        rounding: u32,
        reverse_print: bool,
    ) -> ZplResult<()>;

    /// Draws a circle.
    fn draw_graphic_circle(
        &mut self,
        x: u32,
        y: u32,
        radius: u32,
        thickness: u32,
        color: char,
        custom_color: Option<String>,
        reverse_print: bool,
    ) -> ZplResult<()>;

    /// Draws an ellipse.
    fn draw_graphic_ellipse(
        &mut self,
        x: u32,
        y: u32,
        width: u32,
        height: u32,
        thickness: u32,
        color: char,
        custom_color: Option<String>,
        reverse_print: bool,
    ) -> ZplResult<()>;

    /// Draws a bitmap of one bit per pixel.
    fn draw_graphic_field(
        &mut self,
        x: u32,
        y: u32,
        width: u32,
        height: u32,
        data: Vec<u8>,
        reverse_print: bool,
    ) -> ZplResult<()>;

    /// Draws a colour image given as base64 text. A width and height of zero ask for the
    /// natural size; if one of them is zero, it follows from the other.
    fn draw_graphic_image_custom(
        &mut self,
        x: u32,
        y: u32,
        width: u32,
        height: u32,
        data: String,
    ) -> ZplResult<()>;

    /// Draws a Code 128 barcode.
    fn draw_code128(
        &mut self,
        x: u32,
        y: u32,
        orientation: char,
        height: u32,
        module_width: u32,
        interpretation_line: char,
        interpretation_line_above: char,
        check_digit: char,
        mode: char,
        data: String,
        reverse_print: bool,
    ) -> ZplResult<()>;

    /// Draws a QR code.
    fn draw_qr_code(
        &mut self,
        x: u32,
        y: u32,
        orientation: char,
        model: u32,
        magnification: u32,
        error_correction: char,
        mask: u32,
        data: String,
        reverse_print: bool,
    ) -> ZplResult<()>;

    /// Draws a Code 39 barcode.
    fn draw_code39(
        &mut self,
        x: u32,
        y: u32,
        orientation: char,
        check_digit: char,
        height: u32,
        module_width: u32,
        interpretation_line: char,
        interpretation_line_above: char,
        data: String,
        reverse_print: bool,
    ) -> ZplResult<()>;

    /// Ends the drawing and returns the output.
    fn finalize(&mut self) -> ZplResult<Vec<u8>>;
}

/// A backend together with the record of the calls made to it.
///
/// The record exists for reasoning only: it is how the engine's contracts say which
/// operations a backend is asked to perform, and in which order.
pub struct Recorded<B, P> {
    backend: B,
    log: Ghost<Seq<BackendCall<P>>>,
}

impl<P, B: ZplForgeBackend<P>> Recorded<B, P> {
    /// The calls made so far, oldest first.
    pub closed spec fn received(&self) -> Seq<BackendCall<P>> {
        self.log@
    }

    /// Starts a record for a backend.
    pub fn new(backend: B) -> (recorded: Self)
        ensures
            recorded.received() == Seq::<BackendCall<P>>::empty(),
    {
        Recorded { backend, log: Ghost(Seq::empty()) }
    }

    /// The backend that is recorded.
    pub closed spec fn inner(&self) -> B {
        self.backend
    }

    /// The backend.
    pub fn backend(&self) -> (backend: &B)
        ensures
            *backend == self.inner(),
    {
        &self.backend
    }

    /// Gives the backend back.
    pub fn into_inner(self) -> (backend: B)
        ensures
            backend == self.inner(),
    {
        self.backend
    }

    /// Prepares the drawing surface for a page.
    pub fn setup_page(&mut self, page: &P)
        ensures
            final(self).received() == old(self).received().push(BackendCall::SetupPage(*page)),
    {
        self.backend.setup_page(page);
        self.log = Ghost(self.log@.push(BackendCall::SetupPage(*page)));
    }

    /// Hands over the fonts to draw text with.
    pub fn setup_font_manager(&mut self, font_manager: &FontManager)
        ensures
            final(self).received() == old(self).received().push(
                BackendCall::SetupFonts(*font_manager),
            ),
    {
        self.backend.setup_font_manager(font_manager);
        self.log = Ghost(self.log@.push(BackendCall::SetupFonts(*font_manager)));
    }

    /// Performs the drawing operation for an instruction, with exactly its values, and
    /// returns the backend's answer.
    pub fn draw(&mut self, instruction: ZplInstruction) -> (r: ZplResult<()>)
        ensures
            final(self).received() == old(self).received().push(
                BackendCall::Draw(instruction@, failure_of(r)),
            ),
    {
        let ghost view = instruction@;
        let r = match instruction {
            ZplInstruction::Text { x, y, font, height, width, text, reverse_print, color } => self.backend.draw_text(
                x,
                y,
                font,
                height,
                width,
                text,
                reverse_print,
                color,
            ),
            ZplInstruction::GraphicBox {
                x,
                y,
                width,
                height,
                thickness,
                color,
                custom_color,
                rounding,
                reverse_print,
            } => self.backend.draw_graphic_box(
                x,
                y,
                width,
                height,
                thickness,
                color,
                custom_color,
                rounding,
                reverse_print,
            ),
            ZplInstruction::GraphicCircle {
                x,
                y,
                radius,
                thickness,
                color,
                custom_color,
                reverse_print,
            } => self.backend.draw_graphic_circle(
                x,
                y,
                radius,
                thickness,
                color,
                custom_color,
                reverse_print,
            ),
            ZplInstruction::GraphicEllipse {
                x,
                y,
                width,
                height,
                thickness,
                color,
                custom_color,
                reverse_print,
            } => self.backend.draw_graphic_ellipse(
                x,
                y,
                width,
                height,
                thickness,
                color,
                custom_color,
                reverse_print,
            ),
            ZplInstruction::GraphicField { x, y, width, height, data, reverse_print } => self.backend.draw_graphic_field(
                x,
                y,
                width,
                height,
                data,
                reverse_print,
            ),
            ZplInstruction::CustomImage { x, y, width, height, data } => self.backend.draw_graphic_image_custom(
                x,
                y,
                width,
                height,
                data,
            ),
            ZplInstruction::Code128 {
                x,
                y,
                orientation,
                height,
                module_width,
                interpretation_line,
                interpretation_line_above,
                check_digit,
                mode,
                data,
                reverse_print,
            } => self.backend.draw_code128(
                x,
                y,
                orientation,
                height,
                module_width,
                interpretation_line,
                interpretation_line_above,
                check_digit,
                mode,
                data,
                reverse_print,
            ),
            ZplInstruction::QRCode {
                x,
                y,
                orientation,
                model,
                magnification,
                error_correction,
                mask,
                data,
                reverse_print,
            } => self.backend.draw_qr_code(
                x,
                y,
                orientation,
                model,
                magnification,
                error_correction,
                mask,
                data,
                reverse_print,
            ),
            ZplInstruction::Code39 {
                x,
                y,
                orientation,
                check_digit,
                height,
                module_width,
                interpretation_line,
                interpretation_line_above,
                data,
                reverse_print,
            } => self.backend.draw_code39(
                x,
                y,
                orientation,
                check_digit,
                height,
                module_width,
                interpretation_line,
                interpretation_line_above,
                data,
                reverse_print,
            ),
        };
        self.log = Ghost(self.log@.push(BackendCall::Draw(view, failure_of(r))));
        r
    }

    /// Ends the drawing and returns the backend's output.
    pub fn finalize(&mut self) -> (r: ZplResult<Vec<u8>>)
        ensures
            final(self).received() == old(self).received().push(
                BackendCall::Finalize(output_view(r)),
            ),
    {
        let r = self.backend.finalize();
        self.log = Ghost(self.log@.push(BackendCall::Finalize(output_view(r))));
        r
    }
}

} // verus!
