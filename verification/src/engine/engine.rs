//! The entry points: compiling a label text into instructions, and handing the
//! instructions to a backend.

use std::sync::Arc;
use vstd::prelude::*;
use crate::ast::parser::{parse_zpl, parsed};
use crate::error::{ZplError, ZplErrorView, ZplResult};
use super::backend::{output_view, BackendCall, Recorded, ZplForgeBackend};
use crate::text::copy_text;
use super::common::{instruction_views, InstructionView, ZplInstruction};
use super::font::FontManager;
use super::intr::{built, ZplInstructionBuilder};
use super::vars::{substitute, substituted, Variables};

verus! {

/// What a label text compiles to: the instructions of its commands, or the diagnostic of
/// the grammar, or "empty input" where the text holds no command.
pub open spec fn compiled(text: Seq<char>) -> Result<Seq<InstructionView>, ZplErrorView> {
    match parsed(text) {
        Ok(commands) => if commands.len() == 0 {
            Err(ZplErrorView::EmptyInput)
        } else {
            Ok(built(commands))
        },
        Err(e) => Err(e),
    }
}

/// The value of a compile result.
pub open spec fn compile_view(r: ZplResult<Vec<ZplInstruction>>) -> Result<
    Seq<InstructionView>,
    ZplErrorView,
> {
    match r {
        Ok(instructions) => Ok(instruction_views(instructions@)),
        Err(e) => Err(e@),
    }
}

/// Compiles a label text into drawing instructions, in draw order.
///
/// Fails with a parse error, which names the line, where the text does not follow the
/// grammar, and with "empty input" where it holds no command. Otherwise the result is
/// what the instruction builder makes of the commands.
pub fn compile(zpl: &str) -> (r: ZplResult<Vec<ZplInstruction>>)
    ensures
        compile_view(r) == compiled(zpl@),
{
    let commands = match parse_zpl(zpl) {
        Ok(commands) => commands,
        Err(e) => {
            return Err(e);
        },
    };
    if commands.len() == 0 {
        return Err(ZplError::EmptyInput);
    }
    let builder = ZplInstructionBuilder::new(commands);
    builder.build()
}

/// **Determinism.** Compiling the same text twice gives the same outcome: the same
/// instructions in the same order, or the same error.
pub proof fn lemma_compile_is_deterministic(
    text: Seq<char>,
    first: ZplResult<Vec<ZplInstruction>>,
    second: ZplResult<Vec<ZplInstruction>>,
)
    requires
        compile_view(first) == compiled(text),
        compile_view(second) == compiled(text),
    ensures
        compile_view(first) == compile_view(second),
{
}

/// The instruction as it reaches the backend: placeholders in text and in barcode data
/// are replaced by the values of the variables; everything else stays.
pub open spec fn resolved(instruction: InstructionView, variables: Seq<(Seq<char>, Seq<char>)>) -> InstructionView {
    match instruction {
        InstructionView::Text { x, y, font, height, width, text, reverse_print, color } => InstructionView::Text {
            x,
            y,
            font,
            height,
            width,
            text: substituted(text, variables),
            reverse_print,
            color,
        },
        InstructionView::Code128 {
            x,
            y,
            orientation,
            height,
            module_width,
            interpretation_line,
            interpretation_line_above,
            check_digit,
            mode,
            data,
            reverse_print,
        } => InstructionView::Code128 {
            x,
            y,
            orientation,
            height,
            module_width,
            interpretation_line,
            interpretation_line_above,
            check_digit,
            mode,
            data: substituted(data, variables),
            reverse_print,
        },
        InstructionView::QRCode {
            x,
            y,
            orientation,
            model,
            magnification,
            error_correction,
            mask,
            data,
            reverse_print,
        } => InstructionView::QRCode {
            x,
            y,
            orientation,
            model,
            magnification,
            error_correction,
            mask,
            data: substituted(data, variables),
            reverse_print,
        },
        InstructionView::Code39 {
            x,
            y,
            orientation,
            check_digit,
            height,
            module_width,
            interpretation_line,
            interpretation_line_above,
            data,
            reverse_print,
        } => InstructionView::Code39 {
            x,
            y,
            orientation,
            check_digit,
            height,
            module_width,
            interpretation_line,
            interpretation_line_above,
            data: substituted(data, variables),
            reverse_print,
        },
        other => other,
    }
}

/// The drawing calls for the first `n` instructions, in draw order, all of them
/// answered without an error.
pub open spec fn draw_calls<P>(
    instructions: Seq<InstructionView>,
    variables: Seq<(Seq<char>, Seq<char>)>,
    n: int,
) -> Seq<BackendCall<P>> {
    Seq::new(n as nat, |i: int| BackendCall::Draw(resolved(instructions[i], variables), None))
}

/// What a backend has been asked once a label is drawn, and what the drawing returns.
/// Either every drawing operation succeeded and the backend was asked for its output,
/// which is what is returned. Or the drawing operation `k` was the first to fail, nothing
/// was called after it, and its error is what is returned.
pub open spec fn drawn<P>(
    log: Seq<BackendCall<P>>,
    r: Result<Seq<u8>, ZplErrorView>,
    instructions: Seq<InstructionView>,
    variables: Seq<(Seq<char>, Seq<char>)>,
) -> bool {
    ||| log == draw_calls::<P>(instructions, variables, instructions.len() as int).push(
        BackendCall::Finalize(r),
    )
    ||| exists|k: int|
        0 <= k < instructions.len() && #[trigger] failed_at(log, r, instructions, variables, k)
}

/// The drawing operation `k` was the first to fail.
pub open spec fn failed_at<P>(
    log: Seq<BackendCall<P>>,
    r: Result<Seq<u8>, ZplErrorView>,
    instructions: Seq<InstructionView>,
    variables: Seq<(Seq<char>, Seq<char>)>,
    k: int,
) -> bool {
    r matches Err(e) && log == draw_calls::<P>(instructions, variables, k).push(
        BackendCall::Draw(resolved(instructions[k], variables), Some(e)),
    )
}

/// The instruction as it reaches the backend, with the variables filled in.
pub fn resolve(instruction: &ZplInstruction, variables: &Variables) -> (r: ZplInstruction)
    ensures
        r@ == resolved(instruction@, variables@),
{
    match instruction {
        ZplInstruction::Text { x, y, font, height, width, text, reverse_print, color } => ZplInstruction::Text {
            x: *x,
            y: *y,
            font: *font,
            height: *height,
            width: *width,
            text: substitute(text.as_str(), variables),
            reverse_print: *reverse_print,
            color: copy_text(color),
        },
        ZplInstruction::GraphicBox {
            x,
            y,
            width,
            height,
            thickness,
            color,
            custom_color,
            rounding,
            reverse_print,
        } => ZplInstruction::GraphicBox {
            x: *x,
            y: *y,
            width: *width,
            height: *height,
            thickness: *thickness,
            color: *color,
            custom_color: copy_text(custom_color),
            rounding: *rounding,
            reverse_print: *reverse_print,
        },
        ZplInstruction::GraphicCircle {
            x,
            y,
            radius,
            thickness,
            color,
            custom_color,
            reverse_print,
        } => ZplInstruction::GraphicCircle {
            x: *x,
            y: *y,
            radius: *radius,
            thickness: *thickness,
            color: *color,
            custom_color: copy_text(custom_color),
            reverse_print: *reverse_print,
        },
        ZplInstruction::GraphicEllipse {
            x,
            y,
            width,
            height,
            thickness,
            color,
            custom_color,
            reverse_print,
        } => ZplInstruction::GraphicEllipse {
            x: *x,
            y: *y,
            width: *width,
            height: *height,
            thickness: *thickness,
            color: *color,
            custom_color: copy_text(custom_color),
            reverse_print: *reverse_print,
        },
        ZplInstruction::GraphicField { x, y, width, height, data, reverse_print } => {
            let copy = data.clone();
            ZplInstruction::GraphicField {
                x: *x,
                y: *y,
                width: *width,
                height: *height,
                data: copy,
                reverse_print: *reverse_print,
            }
        },
        ZplInstruction::CustomImage { x, y, width, height, data } => ZplInstruction::CustomImage {
            x: *x,
            y: *y,
            width: *width,
            height: *height,
            data: data.clone(),
        },
        ZplInstruction::Code128 {
            x,
            y,
            orientation,
            height,
            module_width,
            interpretation_line,
            interpretation_line_above,
            check_digit,
            mode,
            data,
            reverse_print,
        } => ZplInstruction::Code128 {
            x: *x,
            y: *y,
            orientation: *orientation,
            height: *height,
            module_width: *module_width,
            interpretation_line: *interpretation_line,
            interpretation_line_above: *interpretation_line_above,
            check_digit: *check_digit,
            mode: *mode,
            data: substitute(data.as_str(), variables),
            reverse_print: *reverse_print,
        },
        ZplInstruction::QRCode {
            x,
            y,
            orientation,
            model,
            magnification,
            error_correction,
            mask,
            data,
            reverse_print,
        } => ZplInstruction::QRCode {
            x: *x,
            y: *y,
            orientation: *orientation,
            model: *model,
            magnification: *magnification,
            error_correction: *error_correction,
            mask: *mask,
            data: substitute(data.as_str(), variables),
            reverse_print: *reverse_print,
        },
        ZplInstruction::Code39 {
            x,
            y,
            orientation,
            check_digit,
            height,
            module_width,
            interpretation_line,
            interpretation_line_above,
            data,
            reverse_print,
        } => ZplInstruction::Code39 {
            x: *x,
            y: *y,
            orientation: *orientation,
            check_digit: *check_digit,
            height: *height,
            module_width: *module_width,
            interpretation_line: *interpretation_line,
            interpretation_line_above: *interpretation_line_above,
            data: substitute(data.as_str(), variables),
            reverse_print: *reverse_print,
        },
    }
}

/// A compiled label, ready to be drawn on pages described by `P`.
#[derive(Debug)]
pub struct ZplEngine<P> {
    instructions: Vec<ZplInstruction>,
    page: P,
    fonts: Option<Arc<FontManager>>,
}

impl<P> ZplEngine<P> {
    /// The instructions of the label, in draw order.
    pub closed spec fn instructions(&self) -> Seq<InstructionView> {
        instruction_views(self.instructions@)
    }

    /// The description of the page.
    pub closed spec fn page(&self) -> P {
        self.page
    }

    /// The fonts that have been set, if any.
    pub closed spec fn fonts(&self) -> Option<Arc<FontManager>> {
        self.fonts
    }

    /// Whether fonts have been set.
    pub open spec fn has_fonts(&self) -> bool {
        self.fonts() is Some
    }

    /// The fonts that a backend gets: those that have been set, or else `default_fonts`.
    pub open spec fn fonts_or(&self, default_fonts: FontManager) -> FontManager {
        match self.fonts() {
            Some(fonts) => *fonts,
            None => default_fonts,
        }
    }

    /// Compiles a label text for a page.
    ///
    /// Fails as [`compile`] does; otherwise the engine holds the compiled instructions
    /// and the page description, and no fonts yet.
    pub fn new(zpl: &str, page: P) -> (r: ZplResult<Self>)
        ensures
            match r {
                Ok(engine) => compiled(zpl@) == Ok::<Seq<InstructionView>, ZplErrorView>(
                    engine.instructions(),
                ) && engine.page() == page && !engine.has_fonts(),
                Err(e) => compiled(zpl@) == Err::<Seq<InstructionView>, ZplErrorView>(e@),
            },
    {
        match compile(zpl) {
            Ok(instructions) => Ok(ZplEngine { instructions, page, fonts: None }),
            Err(e) => Err(e),
        }
    }

    /// Whether fonts have been set.
    pub fn fonts_set(&self) -> (set: bool)
        ensures
            set == self.has_fonts(),
    {
        self.fonts.is_some()
    }

    /// Sets the fonts to draw text with. Without fonts, backends get the default fonts
    /// that the caller of `render` supplies.
    pub fn set_fonts(&mut self, fonts: Arc<FontManager>)
        ensures
            final(self).fonts() == Some(fonts),
            final(self).instructions() == old(self).instructions(),
            final(self).page() == old(self).page(),
    {
        self.fonts = Some(fonts);
    }

    /// The instructions of the label, in draw order.
    pub fn compiled_instructions(&self) -> (instructions: &Vec<ZplInstruction>)
        ensures
            instruction_views(instructions@) == self.instructions(),
    {
        &self.instructions
    }

    /// The calls that drawing this label makes before the first drawing operation.
    pub open spec fn setup_calls(&self, default_fonts: FontManager) -> Seq<BackendCall<P>> {
        seq![
            BackendCall::SetupPage(self.page()),
            BackendCall::SetupFonts(self.fonts_or(default_fonts)),
        ]
    }

    /// Draws the label on a backend.
    ///
    /// The backend receives the page and the fonts, which are the fonts that were set
    /// or else `default_fonts`, then one drawing operation per instruction, in draw order
    /// and with the variables filled in, then the request for the output, whose answer is
    /// returned. The first drawing operation that fails ends the drawing: its error is
    /// returned and nothing is called after it.
    pub fn render<B: ZplForgeBackend<P>>(
        &self,
        backend: &mut Recorded<B, P>,
        variables: &Variables,
        default_fonts: &FontManager,
    ) -> (r: ZplResult<Vec<u8>>)
        ensures
            exists|calls: Seq<BackendCall<P>>|
                {
                    &&& final(backend).received() == old(backend).received() + self.setup_calls(
                        *default_fonts,
                    ) + calls
                    &&& #[trigger] drawn(calls, output_view(r), self.instructions(), variables@)
                },
    {
        let ghost start = backend.received();
        let ghost views = self.instructions();
        backend.setup_page(&self.page);
        match &self.fonts {
            Some(fonts) => backend.setup_font_manager(fonts),
            None => backend.setup_font_manager(default_fonts),
        }
        let ghost before = start + self.setup_calls(*default_fonts);
        let mut i: usize = 0;
        while i < self.instructions.len()
            invariant
                i <= self.instructions@.len(),
                views == self.instructions(),
                views == instruction_views(self.instructions@),
                before == old(backend).received() + self.setup_calls(*default_fonts),
                backend.received() == before + draw_calls::<P>(views, variables@, i as int),
            decreases self.instructions@.len() - i,
        {
            let ghost done = draw_calls::<P>(views, variables@, i as int);
            let outcome = backend.draw(resolve(&self.instructions[i], variables));
            if let Err(e) = outcome {
                let ghost calls = done.push(
                    BackendCall::Draw(resolved(views[i as int], variables@), Some(e@)),
                );
                let ghost failure = Err::<Seq<u8>, ZplErrorView>(e@);
                assert(failed_at(calls, failure, views, variables@, i as int));
                assert(drawn(calls, failure, views, variables@));
                return Err(e);
            }
            i += 1;
        }
        let ghost all = draw_calls::<P>(views, variables@, views.len() as int);
        let r = backend.finalize();
        let ghost calls = all.push(BackendCall::Finalize(output_view(r)));
        assert(drawn(calls, output_view(r), views, variables@));
        r
    }
}

} // verus!
