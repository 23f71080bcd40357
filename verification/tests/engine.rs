use zpl_forge::ast::cmd::Command;
use zpl_forge::engine::backend::Recorded;
use zpl_forge::engine::font::{default_family, with_default_font};
use zpl_forge::engine::intr::ZplInstructionBuilder;
use zpl_forge::engine::vars::{replace_all, substitute};
use zpl_forge::{
    compile, FontManager, Variables, ZplEngine, ZplError, ZplForgeBackend, ZplInstruction,
    ZplResult,
};

fn build(commands: Vec<Command>) -> Vec<ZplInstruction> {
    ZplInstructionBuilder::new(commands).build().unwrap()
}

fn show(instructions: &[ZplInstruction]) -> String {
    format!("{:?}", instructions)
}

#[test]
fn flush_emits_one_text_instruction() {
    let instructions = compile("^XA^FO50,50^A0N,50,50^FDHello^FS^XZ").unwrap();
    assert_eq!(instructions.len(), 1);
    match &instructions[0] {
        ZplInstruction::Text { x, y, font, height, width, text, reverse_print, color } => {
            assert_eq!((*x, *y), (50, 50));
            assert_eq!(*font, '0');
            assert_eq!(*height, Some(50));
            assert_eq!(*width, Some(50));
            assert_eq!(text, "Hello");
            assert!(!*reverse_print);
            assert_eq!(*color, None);
        }
        other => panic!("unexpected instruction {:?}", other),
    }
}

#[test]
fn font_persists_across_fields() {
    let instructions =
        compile("^XA^CFB,30,20^FO10,10^FDone^FS^FO10,60^FDtwo^FS^XZ").unwrap();
    assert_eq!(
        show(&instructions),
        "[Text { x: 10, y: 10, font: 'B', height: Some(30), width: Some(20), text: \"one\", reverse_print: false, color: None }, \
         Text { x: 10, y: 60, font: 'B', height: Some(30), width: Some(20), text: \"two\", reverse_print: false, color: None }]"
    );
}

#[test]
fn barcode_defaults_are_the_fallback() {
    let instructions = compile("^XA^BY2,3,20^BCN^FD123^FS^XZ").unwrap();
    assert_eq!(
        show(&instructions),
        "[Code128 { x: 0, y: 0, orientation: 'N', height: 20, module_width: 2, interpretation_line: 'Y', interpretation_line_above: 'N', check_digit: 'N', mode: 'N', data: \"123\", reverse_print: false }]"
    );
}

#[test]
fn barcode_defaults_survive_field_separators() {
    let instructions = compile("^BY5,2.5,77^FS^FDx^FS^B3^FD1^FS^BQ^FD2^FS").unwrap();
    assert_eq!(
        show(&instructions[1..]),
        "[Code39 { x: 0, y: 0, orientation: 'N', check_digit: 'N', height: 77, module_width: 5, interpretation_line: 'Y', interpretation_line_above: 'N', data: \"1\", reverse_print: false }, \
         QRCode { x: 0, y: 0, orientation: 'N', model: 2, magnification: 5, error_correction: 'M', mask: 7, data: \"2\", reverse_print: false }]"
    );
}

#[test]
fn barcodes_without_defaults_use_ten_and_two() {
    let instructions = compile("^BC^FDa^FS^BQN,1,,H,3^FDb^FS^B3N,Y,40,N,Y^FDc^FS").unwrap();
    assert_eq!(
        show(&instructions),
        "[Code128 { x: 0, y: 0, orientation: 'N', height: 10, module_width: 2, interpretation_line: 'Y', interpretation_line_above: 'N', check_digit: 'N', mode: 'N', data: \"a\", reverse_print: false }, \
         QRCode { x: 0, y: 0, orientation: 'N', model: 1, magnification: 2, error_correction: 'H', mask: 3, data: \"b\", reverse_print: false }, \
         Code39 { x: 0, y: 0, orientation: 'N', check_digit: 'Y', height: 40, module_width: 2, interpretation_line: 'N', interpretation_line_above: 'Y', data: \"c\", reverse_print: false }]"
    );
}

#[test]
fn unknown_command_compiles() {
    // the unknown command has no effect; the separator after it has nothing to emit
    assert!(compile("^ZZfoo^FS").unwrap().is_empty());
    let instructions = compile("^XA^ZZfoo^FDx^FS^XZ").unwrap();
    assert_eq!(instructions.len(), 1);
}

#[test]
fn separator_without_pending_field_emits_nothing() {
    assert!(compile("^XA^FS^FS^FO1,2^FS^XZ").unwrap().is_empty());
    assert!(build(vec![Command::FieldSeparator]).is_empty());
    assert!(build(vec![]).is_empty());
}

#[test]
fn each_field_emits_exactly_one_instruction() {
    let instructions = compile("^FDa^FS^FS^GB1,1^FS^FS^FDb^GC5^FS").unwrap();
    assert_eq!(instructions.len(), 3);
    assert!(matches!(instructions[0], ZplInstruction::Text { .. }));
    assert!(matches!(instructions[1], ZplInstruction::GraphicBox { .. }));
    assert!(matches!(instructions[2], ZplInstruction::GraphicCircle { .. }));
}

#[test]
fn field_without_separator_is_not_emitted() {
    assert!(compile("^XA^FO1,1^FDlost^XZ").unwrap().is_empty());
}

#[test]
fn graphics_take_their_defaults() {
    let instructions = compile("^FO3,4^GB10,20^FS^GC^FS^GE^FS").unwrap();
    assert_eq!(
        show(&instructions),
        "[GraphicBox { x: 3, y: 4, width: 10, height: 20, thickness: 1, color: 'B', custom_color: None, rounding: 0, reverse_print: false }, \
         GraphicCircle { x: 3, y: 4, radius: 0, thickness: 1, color: 'B', custom_color: None, reverse_print: false }, \
         GraphicEllipse { x: 3, y: 4, width: 0, height: 0, thickness: 1, color: 'B', custom_color: None, reverse_print: false }]"
    );
}

#[test]
fn graphics_take_what_is_written() {
    let instructions = compile("^GLC#112233^GB10,20,3,W,4^FS^GC8,2,W^FS^GE6,7,2,W^FS").unwrap();
    assert_eq!(
        show(&instructions),
        "[GraphicBox { x: 0, y: 0, width: 10, height: 20, thickness: 3, color: 'W', custom_color: Some(\"#112233\"), rounding: 4, reverse_print: false }, \
         GraphicCircle { x: 0, y: 0, radius: 8, thickness: 2, color: 'W', custom_color: Some(\"#112233\"), reverse_print: false }, \
         GraphicEllipse { x: 0, y: 0, width: 6, height: 7, thickness: 2, color: 'W', custom_color: Some(\"#112233\"), reverse_print: false }]"
    );
}

#[test]
fn circle_keeps_the_height_of_the_field_before() {
    // the metrics are modal: a circle sets width and thickness only
    let instructions = compile("^GB10,20,3^FS^GE^FS^GB1,2^FS^GC9^FS^GE,,^FS").unwrap();
    assert!(matches!(
        instructions[4],
        ZplInstruction::GraphicEllipse { width: 0, height: 0, thickness: 1, .. }
    ));
}

#[test]
fn reverse_flag_toggles_and_resets_at_the_separator() {
    let instructions = compile("^FR^FDa^FS^FDb^FS^FR^FR^FDc^FS^FR^GB1,1^FS").unwrap();
    let flags: Vec<bool> = instructions
        .iter()
        .map(|i| match i {
            ZplInstruction::Text { reverse_print, .. } => *reverse_print,
            ZplInstruction::GraphicBox { reverse_print, .. } => *reverse_print,
            other => panic!("unexpected instruction {:?}", other),
        })
        .collect();
    assert_eq!(flags, vec![true, false, false, true]);
}

#[test]
fn text_colour_persists() {
    let instructions = compile("^GTC#FF0000^FDa^FS^FDb^FS").unwrap();
    for i in &instructions {
        assert!(matches!(i, ZplInstruction::Text { color: Some(c), .. } if c == "#FF0000"));
    }
}

#[test]
fn origin_keeps_the_coordinate_that_is_left_out() {
    let instructions = compile("^FO5,6^FDa^FS^FO,9^FDb^FS^FO7^FDc^FS").unwrap();
    let at: Vec<(u32, u32)> = instructions
        .iter()
        .map(|i| match i {
            ZplInstruction::Text { x, y, .. } => (*x, *y),
            other => panic!("unexpected instruction {:?}", other),
        })
        .collect();
    assert_eq!(at, vec![(5, 6), (5, 9), (7, 9)]);
}

#[test]
fn typeset_commands_do_not_move_the_origin() {
    let instructions = compile("^FT4294967295,1^FT5,5^FDa^FS").unwrap();
    assert!(matches!(instructions[0], ZplInstruction::Text { x: 0, y: 0, .. }));
}

#[test]
fn full_font_command_merges_what_is_written() {
    let instructions = compile("^A0N,50,40^FDa^FS^AB^FDb^FS^AC,,7^FDc^FS").unwrap();
    assert_eq!(
        show(&instructions),
        "[Text { x: 0, y: 0, font: '0', height: Some(50), width: Some(40), text: \"a\", reverse_print: false, color: None }, \
         Text { x: 0, y: 0, font: 'B', height: Some(50), width: Some(40), text: \"b\", reverse_print: false, color: None }, \
         Text { x: 0, y: 0, font: 'C', height: Some(50), width: Some(7), text: \"c\", reverse_print: false, color: None }]"
    );
}

#[test]
fn raw_graphic_is_decoded_and_measured() {
    let instructions = compile("^FO8,9^GFA,6,6,2,FFFF0000,,^FS").unwrap();
    assert_eq!(
        show(&instructions),
        "[GraphicField { x: 8, y: 9, width: 16, height: 3, data: [255, 255, 0, 0, 0, 0], reverse_print: false }]"
    );
    // without a row length nothing is measured, and the metrics of earlier fields stay
    let instructions = compile("^GB7,9^FS^GFA,,,,0F^FS").unwrap();
    assert_eq!(
        show(&instructions[1..]),
        "[GraphicField { x: 0, y: 0, width: 7, height: 9, data: [15], reverse_print: false }]"
    );
    // a row length of zero measures the width only
    let instructions = compile("^GB7,9^FS^GFA,1,1,0,0F^FS").unwrap();
    assert!(matches!(instructions[1], ZplInstruction::GraphicField { width: 0, height: 9, .. }));
    // the width saturates
    let instructions = compile("^GFA,1,1,4294967295,^FS").unwrap();
    assert!(matches!(
        instructions[0],
        ZplInstruction::GraphicField { width: 4294967295, height: 0, .. }
    ));
}

#[test]
fn raw_graphic_without_compression_letter_is_scheme_a() {
    let instructions = compile("^GF,1,1,1,A5^FS").unwrap();
    assert!(matches!(&instructions[0], ZplInstruction::GraphicField { data, .. } if data == &vec![0xA5]));
}

#[test]
fn other_compression_schemes_end_the_build() {
    for scheme in ["B", "C", "Z", "a", "x"] {
        let text = format!("^FDkept^FS^FDpending^GF{},1,1,1,FF^FS^FDlost^FS", scheme);
        let instructions = compile(&text).unwrap();
        assert_eq!(instructions.len(), 1);
        assert!(matches!(&instructions[0], ZplInstruction::Text { text, .. } if text == "kept"));
    }
}

#[test]
fn custom_image_carries_its_payload() {
    let instructions = compile("^FO1,2^FR^GIC30,40,QUJD^FS").unwrap();
    assert_eq!(
        show(&instructions),
        "[CustomImage { x: 1, y: 2, width: 30, height: 40, data: \"QUJD\" }]"
    );
}

#[test]
fn a_graphic_with_field_data_emits_the_graphic() {
    let instructions = compile("^FDtext^GB5,5^FS^FDafter^FS").unwrap();
    assert_eq!(instructions.len(), 2);
    assert!(matches!(instructions[0], ZplInstruction::GraphicBox { .. }));
    assert!(matches!(&instructions[1], ZplInstruction::Text { text, .. } if text == "after"));
}

#[test]
fn barcode_without_data_has_empty_data() {
    let instructions = compile("^BC^FS").unwrap();
    assert!(matches!(&instructions[0], ZplInstruction::Code128 { data, .. } if data.is_empty()));
}

#[test]
fn builder_ignores_commands_without_effect() {
    let instructions = build(vec![
        Command::StartFormat,
        Command::LabelHome { x: Some(9), y: Some(9) },
        Command::LabelLength { length: Some(1) },
        Command::Comment { text: "c".to_string() },
        Command::ChangeIntFont { charset: Some(28) },
        Command::FieldData { data: "d".to_string() },
        Command::FieldSeparator,
        Command::EndFormat,
    ]);
    assert_eq!(
        show(&instructions),
        "[Text { x: 0, y: 0, font: '\\0', height: None, width: None, text: \"d\", reverse_print: false, color: None }]"
    );
}

#[test]
fn compile_is_deterministic() {
    let text = "^XA^BY2,3,20^FO10,10^BCN^FD123^FS^GFA,2,2,1,FF00^FS^FDx^FS^XZ";
    assert_eq!(format!("{:?}", compile(text)), format!("{:?}", compile(text)));
    let bad = "^XA\n^GB1\n";
    assert_eq!(format!("{:?}", compile(bad)), format!("{:?}", compile(bad)));
}

#[test]
fn compile_of_nothing_is_empty_input() {
    assert!(matches!(compile(""), Err(ZplError::EmptyInput)));
    assert!(matches!(compile("\n \n"), Err(ZplError::EmptyInput)));
}

#[test]
fn engine_holds_the_compiled_instructions() {
    let engine = ZplEngine::new("^FDa^FS^GB1,2^FS", 7u8).unwrap();
    assert_eq!(
        format!("{:?}", engine.compiled_instructions()),
        format!("{:?}", compile("^FDa^FS^GB1,2^FS").unwrap())
    );
}

fn variables(pairs: &[(&str, &str)]) -> Variables {
    let mut vars = Variables::new();
    for (name, value) in pairs {
        vars.insert(name, value);
    }
    vars
}

#[test]
fn variables_are_substituted() {
    let vars = variables(&[("name", "Ann")]);
    assert_eq!(substitute("Hello {{name}}", &vars), "Hello Ann");
    assert_eq!(substitute("Hello {{missing}}", &vars), "Hello {{missing}}");
    assert_eq!(substitute("{{name}}{{name}} {name} {{ name }}", &vars), "AnnAnn {name} {{ name }}");
    assert_eq!(substitute("", &vars), "");
    assert_eq!(substitute("{{name}", &vars), "{{name}");
    assert_eq!(substitute("no placeholders", &Variables::new()), "no placeholders");
}

#[test]
fn variables_are_applied_in_order() {
    let vars = variables(&[("a", "{{b}}"), ("b", "x")]);
    assert_eq!(substitute("{{a}}-{{b}}", &vars), "x-x");
    let vars = variables(&[("b", "x"), ("a", "{{b}}")]);
    assert_eq!(substitute("{{a}}-{{b}}", &vars), "{{b}}-x");
}

#[test]
fn a_variable_given_twice_keeps_its_place_and_takes_the_new_value() {
    let mut vars = variables(&[("a", "1"), ("b", "2")]);
    vars.insert("a", "3");
    assert_eq!(vars.len(), 2);
    assert_eq!(substitute("{{a}}{{b}}", &vars), "32");
    assert_eq!(substitute("{{}}", &variables(&[("", "empty")])), "empty");
}

#[test]
fn replace_all_finds_occurrences_from_the_left() {
    let run = |text: &str, pattern: &str, with: &str| -> String {
        let text: Vec<char> = text.chars().collect();
        let pattern: Vec<char> = pattern.chars().collect();
        let with: Vec<char> = with.chars().collect();
        replace_all(&text, &pattern, &with).into_iter().collect()
    };
    assert_eq!(run("aaaa", "aa", "b"), "aaaa".replace("aa", "b"));
    assert_eq!(run("aaa", "aa", "b"), "aaa".replace("aa", "b"));
    assert_eq!(run("abcabc", "bc", ""), "abcabc".replace("bc", ""));
    assert_eq!(run("abc", "abcd", "x"), "abc");
    assert_eq!(run("héllo wörld", "ö", "oe"), "héllo woerld");
    // an empty pattern occurs nowhere
    assert_eq!(run("abc", "", "x"), "abc");
}

/// A backend that writes down what it is asked to do.
struct Recorder {
    calls: Vec<String>,
    fail_at: Option<usize>,
    draws: usize,
}

impl Recorder {
    fn new(fail_at: Option<usize>) -> Self {
        Recorder { calls: Vec::new(), fail_at, draws: 0 }
    }

    fn record(&mut self, call: String) -> ZplResult<()> {
        self.calls.push(call);
        self.draws += 1;
        if self.fail_at == Some(self.draws) {
            Err(ZplError::BackendError(format!("draw {}", self.draws)))
        } else {
            Ok(())
        }
    }
}

impl ZplForgeBackend<(u32, u32)> for Recorder {
    fn setup_page(&mut self, page: &(u32, u32)) {
        self.calls.push(format!("page {:?}", page));
    }

    fn setup_font_manager(&mut self, font_manager: &FontManager) {
        self.calls.push(format!("fonts {}", font_manager.get_font("0").is_some()));
    }

    fn draw_text(
        &mut self,
        x: u32,
        y: u32,
        font: char,
        height: Option<u32>,
        width: Option<u32>,
        text: String,
        reverse_print: bool,
        color: Option<String>,
    ) -> ZplResult<()> {
        self.record(format!(
            "text {} {} {} {:?} {:?} {} {} {:?}",
            x, y, font, height, width, text, reverse_print, color
        ))
    }

    fn draw_graphic_box(
        &mut self,
        x: u32,
        y: u32,
        width: u32,
        height: u32,
        thickness: u32,
        color: char,
        custom_color: Option<String>,
        rounding: u32,
        reverse_print: bool,
    ) -> ZplResult<()> {
        self.record(format!(
            "box {} {} {} {} {} {} {:?} {} {}",
            x, y, width, height, thickness, color, custom_color, rounding, reverse_print
        ))
    }

    fn draw_graphic_circle(
        &mut self,
        x: u32,
        y: u32,
        radius: u32,
        thickness: u32,
        color: char,
        custom_color: Option<String>,
        reverse_print: bool,
    ) -> ZplResult<()> {
        self.record(format!(
            "circle {} {} {} {} {} {:?} {}",
            x, y, radius, thickness, color, custom_color, reverse_print
        ))
    }

    fn draw_graphic_ellipse(
        &mut self,
        x: u32,
        y: u32,
        width: u32,
        height: u32,
        thickness: u32,
        color: char,
        custom_color: Option<String>,
        reverse_print: bool,
    ) -> ZplResult<()> {
        self.record(format!(
            "ellipse {} {} {} {} {} {} {:?} {}",
            x, y, width, height, thickness, color, custom_color, reverse_print
        ))
    }

    fn draw_graphic_field(
        &mut self,
        x: u32,
        y: u32,
        width: u32,
        height: u32,
        data: Vec<u8>,
        reverse_print: bool,
    ) -> ZplResult<()> {
        self.record(format!("field {} {} {} {} {:?} {}", x, y, width, height, data, reverse_print))
    }

    fn draw_graphic_image_custom(
        &mut self,
        x: u32,
        y: u32,
        width: u32,
        height: u32,
        data: String,
    ) -> ZplResult<()> {
        self.record(format!("image {} {} {} {} {}", x, y, width, height, data))
    }

    fn draw_code128(
        &mut self,
        x: u32,
        y: u32,
        orientation: char,
        height: u32,
        module_width: u32,
        interpretation_line: char,
        interpretation_line_above: char,
        check_digit: char,
        mode: char,
        data: String,
        reverse_print: bool,
    ) -> ZplResult<()> {
        self.record(format!(
            "code128 {} {} {} {} {} {} {} {} {} {} {}",
            x,
            y,
            orientation,
            height,
            module_width,
            interpretation_line,
            interpretation_line_above,
            check_digit,
            mode,
            data,
            reverse_print
        ))
    }

    fn draw_qr_code(
        &mut self,
        x: u32,
        y: u32,
        orientation: char,
        model: u32,
        magnification: u32,
        error_correction: char,
        mask: u32,
        data: String,
        reverse_print: bool,
    ) -> ZplResult<()> {
        self.record(format!(
            "qr {} {} {} {} {} {} {} {} {}",
            x, y, orientation, model, magnification, error_correction, mask, data, reverse_print
        ))
    }

    fn draw_code39(
        &mut self,
        x: u32,
        y: u32,
        orientation: char,
        check_digit: char,
        height: u32,
        module_width: u32,
        interpretation_line: char,
        interpretation_line_above: char,
        data: String,
        reverse_print: bool,
    ) -> ZplResult<()> {
        self.record(format!(
            "code39 {} {} {} {} {} {} {} {} {} {}",
            x,
            y,
            orientation,
            check_digit,
            height,
            module_width,
            interpretation_line,
            interpretation_line_above,
            data,
            reverse_print
        ))
    }

    fn finalize(&mut self) -> ZplResult<Vec<u8>> {
        self.calls.push("finalize".to_string());
        Ok(self.calls.join("\n").into_bytes())
    }
}

const LABEL: &str = "^XA^FO1,2^FDHello {{name}}^FS^FO3,4^GB5,6,7^FS^GC8^FS^GE9,10^FS\
^GFA,1,1,1,F0^FS^GIC1,2,{{name}}^FS^BCN,30^FD{{code}}^FS^BQ^FD{{code}}^FS^B3^FD{{code}}^FS^XZ";

#[test]
fn render_calls_the_backend_in_draw_order() {
    let engine = ZplEngine::new(LABEL, (400u32, 300u32)).unwrap();
    let vars = variables(&[("name", "Ann"), ("code", "42")]);
    let mut recorded = Recorded::new(Recorder::new(None));
    let output = engine.render(&mut recorded, &vars, &FontManager::new()).unwrap();
    let recorder = recorded.into_inner();
    let expected = vec![
        "page (400, 300)",
        "fonts false",
        "text 1 2 \0 None None Hello Ann false None",
        "box 3 4 5 6 7 B None 0 false",
        "circle 3 4 8 1 B None false",
        "ellipse 3 4 9 10 1 B None false",
        "field 3 4 8 1 [240] false",
        "image 3 4 1 2 {{name}}",
        "code128 3 4 N 30 2 Y N N N 42 false",
        "qr 3 4 N 2 2 M 7 42 false",
        "code39 3 4 N N 10 2 Y N 42 false",
        "finalize",
    ];
    assert_eq!(recorder.calls, expected);
    assert_eq!(String::from_utf8(output).unwrap(), expected.join("\n"));
}

#[test]
fn render_returns_what_the_backend_returns() {
    let engine = ZplEngine::new("^FD{{a}}^FS", (1u32, 1u32)).unwrap();
    let mut recorded = Recorded::new(Recorder::new(None));
    let output = engine
        .render(&mut recorded, &variables(&[("a", "b")]), &FontManager::new())
        .unwrap();
    assert_eq!(
        String::from_utf8(output).unwrap(),
        "page (1, 1)\nfonts false\ntext 0 0 \0 None None b false None\nfinalize"
    );
}

#[test]
fn render_stops_at_the_first_failure() {
    let engine = ZplEngine::new(LABEL, (400u32, 300u32)).unwrap();
    let mut recorded = Recorded::new(Recorder::new(Some(2)));
    let result = engine.render(&mut recorded, &Variables::new(), &FontManager::new());
    assert!(matches!(result, Err(ZplError::BackendError(m)) if m == "draw 2"));
    assert_eq!(
        recorded.backend().calls,
        vec![
            "page (400, 300)",
            "fonts false",
            "text 1 2 \0 None None Hello {{name}} false None",
            "box 3 4 5 6 7 B None 0 false",
        ]
    );
}

#[test]
fn render_hands_over_the_fonts_that_were_set() {
    let mut engine = ZplEngine::new("^FDx^FS", (1u32, 1u32)).unwrap();
    engine.set_fonts(std::sync::Arc::new(FontManager::new()));
    let mut recorded = Recorded::new(Recorder::new(None));
    engine.render(&mut recorded, &Variables::new(), &FontManager::new()).unwrap();
    assert_eq!(recorded.backend().calls[1], "fonts false");
}

#[test]
fn default_font_families_come_in_order() {
    let families: Vec<&str> = (0..10).filter_map(default_family).collect();
    assert_eq!(
        families,
        vec!["Swiss 721", "Helvetica", "Roboto", "Liberation Sans", "DejaVu Sans", "Arial"]
    );
    assert!(default_family(6).is_none());
    // data that is no font leaves the registry without fonts
    let fonts = with_default_font("Arial", b"no font");
    assert!(fonts.get_font("0").is_none());
}

#[test]
fn engine_knows_whether_fonts_were_set() {
    let mut engine = ZplEngine::new("^FDx^FS", ()).unwrap();
    assert!(!engine.fonts_set());
    engine.set_fonts(std::sync::Arc::new(FontManager::new()));
    assert!(engine.fonts_set());
}

#[test]
fn fonts_that_are_no_fonts_are_refused() {
    let mut fonts = FontManager::new();
    let result = fonts.register_font("broken", b"not a font", 'A', 'Z');
    assert!(matches!(result, Err(ZplError::FontError(m)) if m == "Invalid font data"));
    assert!(fonts.get_font("A").is_none());
    assert!(fonts.get_font("").is_none());
    assert!(fonts.get_font("AB").is_none());
    assert!(fonts.get_font("a").is_none());
}
