use zpl_forge::ast::cmd::Command;
use zpl_forge::ast::commons::{Justification, YesNo};
use zpl_forge::ast::parser::custom::{cmd_gic, cmd_glc, cmd_gtc};
use zpl_forge::ast::parser::standard::{
    cmd_a, cmd_b3, cmd_bc, cmd_bq, cmd_bx, cmd_by, cmd_cf, cmd_fb, cmd_fd, cmd_fo, cmd_fr, cmd_fs,
    cmd_ft, cmd_fx, cmd_gb, cmd_gc, cmd_ge, cmd_gf, cmd_lh, cmd_ll, cmd_lr, cmd_xa, cmd_xz,
};
use zpl_forge::ast::parser::{
    cmd_unsupported, command, opt_param, param, parse_char, parse_f32, parse_u32, parse_xy,
    parse_zpl, scan_digits, scan_text, skip_whitespace, ErrorKind, Failure,
};
use zpl_forge::ZplError;

fn chars(s: &str) -> Vec<char> {
    s.chars().collect()
}

fn show(r: Result<(usize, Command), Failure>) -> String {
    format!("{:?}", r)
}

fn soft(kind: ErrorKind, at: usize) -> Failure {
    Failure { kind, at, fatal: false }
}

fn hard(kind: ErrorKind, at: usize) -> Failure {
    Failure { kind, at, fatal: true }
}

#[test]
fn error_kind_names_follow_nom() {
    assert_eq!(format!("{:?}", ErrorKind::Tag), format!("{:?}", nom::error::ErrorKind::Tag));
    assert_eq!(format!("{:?}", ErrorKind::Digit), format!("{:?}", nom::error::ErrorKind::Digit));
    assert_eq!(format!("{:?}", ErrorKind::NoneOf), format!("{:?}", nom::error::ErrorKind::NoneOf));
    assert_eq!(format!("{:?}", ErrorKind::MapRes), format!("{:?}", nom::error::ErrorKind::MapRes));
    assert_eq!(format!("{:?}", ErrorKind::Eof), format!("{:?}", nom::error::ErrorKind::Eof));
}

#[test]
fn parse_u32_reads_digits() {
    assert_eq!(parse_u32(&chars("123,4"), 0), Ok((3, 123)));
    assert_eq!(parse_u32(&chars("x007"), 1), Ok((4, 7)));
    assert_eq!(parse_u32(&chars("4294967295"), 0), Ok((10, u32::MAX)));
    assert_eq!(parse_u32(&chars("4294967296"), 0), Err(soft(ErrorKind::MapRes, 0)));
    assert_eq!(parse_u32(&chars("99999999999999999999999"), 0), Err(soft(ErrorKind::MapRes, 0)));
    assert_eq!(parse_u32(&chars("abc"), 0), Err(soft(ErrorKind::Digit, 0)));
    assert_eq!(parse_u32(&chars(""), 0), Err(soft(ErrorKind::Digit, 0)));
    assert_eq!(parse_u32(&chars("12"), 2), Err(soft(ErrorKind::Digit, 2)));
    assert_eq!(parse_u32(&chars("12"), 7), Err(soft(ErrorKind::Digit, 7)));
}

#[test]
fn parse_char_refuses_delimiters() {
    assert_eq!(parse_char(&chars("N,"), 0), Ok((1, 'N')));
    assert_eq!(parse_char(&chars("é"), 0), Ok((1, 'é')));
    for bad in [",", "^", " ", "\t", "\r", "\n", ""] {
        assert_eq!(parse_char(&chars(bad), 0), Err(soft(ErrorKind::NoneOf, 0)));
    }
}

#[test]
fn parse_f32_keeps_the_text() {
    assert_eq!(parse_f32(&chars("3.25,"), 0), Ok((4, "3.25".to_string())));
    assert_eq!(parse_f32(&chars("3"), 0), Ok((1, "3".to_string())));
    // a point without digits after it does not belong to the number
    assert_eq!(parse_f32(&chars("3."), 0), Ok((1, "3".to_string())));
    assert_eq!(parse_f32(&chars("3.x"), 0), Ok((1, "3".to_string())));
    assert_eq!(parse_f32(&chars(".5"), 0), Err(soft(ErrorKind::Digit, 0)));
    assert_eq!(parse_f32(&chars(""), 0), Err(soft(ErrorKind::Digit, 0)));
}

#[test]
fn opt_param_is_absent_before_comma_caret_and_end() {
    assert_eq!(opt_param(parse_u32, &chars(",5"), 0), Ok((0, None)));
    assert_eq!(opt_param(parse_u32, &chars("^FS"), 0), Ok((0, None)));
    assert_eq!(opt_param(parse_u32, &chars(""), 0), Ok((0, None)));
    assert_eq!(opt_param(parse_u32, &chars("42,"), 0), Ok((2, Some(42))));
    assert_eq!(opt_param(parse_u32, &chars("x"), 0), Err(soft(ErrorKind::Digit, 0)));
    assert_eq!(opt_param(parse_char, &chars("Y"), 0), Ok((1, Some('Y'))));
    assert_eq!(opt_param(parse_char, &chars(" "), 0), Err(soft(ErrorKind::NoneOf, 0)));
}

#[test]
fn param_needs_its_comma() {
    assert_eq!(param(parse_u32, &chars(",42"), 0), Ok((3, Some(42))));
    assert_eq!(param(parse_u32, &chars(",,"), 0), Ok((1, None)));
    assert_eq!(param(parse_u32, &chars(","), 0), Ok((1, None)));
    assert_eq!(param(parse_u32, &chars("42"), 0), Err(soft(ErrorKind::Tag, 0)));
    assert_eq!(param(parse_u32, &chars(""), 0), Err(soft(ErrorKind::Tag, 0)));
    assert_eq!(param(parse_u32, &chars(",x"), 0), Err(soft(ErrorKind::Digit, 1)));
}

#[test]
fn parse_xy_takes_short_lists() {
    assert_eq!(parse_xy(&chars("10,20"), 0), Ok((5, (Some(10), Some(20)))));
    assert_eq!(parse_xy(&chars("10"), 0), Ok((2, (Some(10), None))));
    assert_eq!(parse_xy(&chars(",20"), 0), Ok((3, (None, Some(20)))));
    assert_eq!(parse_xy(&chars(""), 0), Ok((0, (None, None))));
    // an unreadable second number is absent and its comma stays
    assert_eq!(parse_xy(&chars("10,x"), 0), Ok((2, (Some(10), None))));
    assert_eq!(parse_xy(&chars("A,10"), 0), Err(soft(ErrorKind::Digit, 0)));
}

#[test]
fn bare_commands() {
    assert_eq!(show(cmd_xa(&chars("^XA"), 0)), "Ok((3, StartFormat))");
    assert_eq!(show(cmd_xz(&chars("^XZ"), 0)), "Ok((3, EndFormat))");
    assert_eq!(show(cmd_fs(&chars("..^FS"), 2)), "Ok((5, FieldSeparator))");
    assert_eq!(show(cmd_fr(&chars("^FR^"), 0)), "Ok((3, FieldReverse))");
    assert_eq!(cmd_xa(&chars("^XZ"), 0).unwrap_err(), soft(ErrorKind::Tag, 0));
    assert_eq!(cmd_xa(&chars("^X"), 0).unwrap_err(), soft(ErrorKind::Tag, 0));
    assert_eq!(cmd_xa(&chars("^xa"), 0).unwrap_err(), soft(ErrorKind::Tag, 0));
}

#[test]
fn coordinate_commands() {
    assert_eq!(show(cmd_lh(&chars("^LH5,6"), 0)), "Ok((6, LabelHome { x: Some(5), y: Some(6) }))");
    assert_eq!(
        show(cmd_fo(&chars("^FO50,60^"), 0)),
        "Ok((8, FieldOrigin { x: Some(50), y: Some(60) }))"
    );
    assert_eq!(show(cmd_ft(&chars("^FT,7"), 0)), "Ok((5, FieldTypeset { x: None, y: Some(7) }))");
    assert_eq!(show(cmd_fo(&chars("^FO"), 0)), "Ok((3, FieldOrigin { x: None, y: None }))");
    assert_eq!(cmd_fo(&chars("^FOA,10"), 0).unwrap_err(), hard(ErrorKind::Digit, 3));
    assert_eq!(show(cmd_ll(&chars("^LL800"), 0)), "Ok((6, LabelLength { length: Some(800) }))");
    assert_eq!(cmd_ll(&chars("^LLABC"), 0).unwrap_err(), hard(ErrorKind::Digit, 3));
}

#[test]
fn label_reverse_maps_letters() {
    assert_eq!(
        show(cmd_lr(&chars("^LRY"), 0)),
        format!("Ok((4, LabelReverse {{ reverse: Some({:?}) }}))", YesNo::Y)
    );
    assert_eq!(show(cmd_lr(&chars("^LRx"), 0)), "Ok((4, LabelReverse { reverse: Some(N) }))");
    assert_eq!(show(cmd_lr(&chars("^LR"), 0)), "Ok((3, LabelReverse { reverse: None }))");
    assert_eq!(cmd_lr(&chars("^LR Y"), 0).unwrap_err(), hard(ErrorKind::NoneOf, 3));
}

#[test]
fn text_commands_trim_and_stop_at_caret() {
    assert_eq!(
        show(cmd_fd(&chars("^FD  Hello, World \n^FS"), 0)),
        "Ok((19, FieldData { data: \"Hello, World\" }))"
    );
    assert_eq!(show(cmd_fd(&chars("^FD"), 0)), "Ok((3, FieldData { data: \"\" }))");
    assert_eq!(show(cmd_fx(&chars("^FX note"), 0)), "Ok((8, Comment { text: \"note\" }))");
    // trimming removes all white space that Unicode knows, not only blanks
    assert_eq!(
        show(cmd_fd(&chars("^FD\u{a0}\u{2003}a b\u{3000}\u{85}"), 0)),
        "Ok((10, FieldData { data: \"a b\" }))"
    );
    assert_eq!(
        show(cmd_gtc(&chars("^GTC #FF0000 ^"), 0)),
        "Ok((13, GraphicTextColor { color: \"#FF0000\" }))"
    );
    assert_eq!(
        show(cmd_glc(&chars("^GLC#00F"), 0)),
        "Ok((8, GraphicLineColor { color: \"#00F\" }))"
    );
    assert_eq!(cmd_gtc(&chars("^GT"), 0).unwrap_err(), soft(ErrorKind::Tag, 0));
}

#[test]
fn font_commands() {
    assert_eq!(
        show(cmd_a(&chars("^A0N,50,40"), 0)),
        "Ok((10, FontSpecFull { font_name: '0', orientation: Some('N'), height: Some(50), width: Some(40) }))"
    );
    assert_eq!(
        show(cmd_a(&chars("^AB"), 0)),
        "Ok((3, FontSpecFull { font_name: 'B', orientation: None, height: None, width: None }))"
    );
    assert_eq!(
        show(cmd_a(&chars("^A0,30"), 0)),
        "Ok((6, FontSpecFull { font_name: '0', orientation: None, height: Some(30), width: None }))"
    );
    // the font letter is mandatory
    assert_eq!(cmd_a(&chars("^A\n"), 0).unwrap_err(), hard(ErrorKind::NoneOf, 2));
    assert_eq!(cmd_a(&chars("^A"), 0).unwrap_err(), hard(ErrorKind::NoneOf, 2));
    // white space where the orientation would stand fails softly
    assert_eq!(cmd_a(&chars("^A0\n"), 0).unwrap_err(), soft(ErrorKind::NoneOf, 3));
    assert_eq!(
        show(cmd_cf(&chars("^CF0,60,50"), 0)),
        "Ok((10, FontSpec { font_name: '0', height: Some(60), width: Some(50) }))"
    );
    assert_eq!(cmd_cf(&chars("^CF\n"), 0).unwrap_err(), hard(ErrorKind::NoneOf, 3));
}

#[test]
fn field_block() {
    assert_eq!(
        show(cmd_fb(&chars("^FB200,3,5,C,10"), 0)),
        format!(
            "Ok((15, FieldBlock {{ width: Some(200), max_lines: Some(3), line_spacing: Some(5), justification: Some({:?}), indent: Some(10) }}))",
            Justification::C
        )
    );
    assert_eq!(
        show(cmd_fb(&chars("^FB200,,,x"), 0)),
        "Ok((10, FieldBlock { width: Some(200), max_lines: None, line_spacing: None, justification: Some(L), indent: None }))"
    );
    assert_eq!(cmd_fb(&chars("^FBx"), 0).unwrap_err(), hard(ErrorKind::Digit, 3));
}

#[test]
fn graphic_box_needs_width_and_height() {
    assert_eq!(
        show(cmd_gb(&chars("^GB100,50,3,W,2"), 0)),
        "Ok((15, GraphicBox { width: 100, height: 50, border_thickness: Some(3), line_color: Some('W'), corner_rounding: Some(2) }))"
    );
    assert_eq!(
        show(cmd_gb(&chars("^GB100,50"), 0)),
        "Ok((9, GraphicBox { width: 100, height: 50, border_thickness: None, line_color: None, corner_rounding: None }))"
    );
    assert_eq!(cmd_gb(&chars("^GB"), 0).unwrap_err(), hard(ErrorKind::Digit, 3));
    assert_eq!(cmd_gb(&chars("^GB100"), 0).unwrap_err(), hard(ErrorKind::Tag, 6));
    assert_eq!(cmd_gb(&chars("^GB100,"), 0).unwrap_err(), hard(ErrorKind::Digit, 7));
    assert_eq!(cmd_gb(&chars("^GB100,x"), 0).unwrap_err(), hard(ErrorKind::Digit, 7));
    // an unreadable optional parameter is absent and its comma stays where it is
    assert_eq!(
        show(cmd_gb(&chars("^GB100,50,abc"), 0)),
        "Ok((11, GraphicBox { width: 100, height: 50, border_thickness: None, line_color: Some('a'), corner_rounding: None }))"
    );
}

#[test]
fn circle_and_ellipse() {
    assert_eq!(
        show(cmd_gc(&chars("^GC90,4,B"), 0)),
        "Ok((9, GraphicCircle { diameter: Some(90), border_thickness: Some(4), line_color: Some('B') }))"
    );
    assert_eq!(
        show(cmd_gc(&chars("^GC"), 0)),
        "Ok((3, GraphicCircle { diameter: None, border_thickness: None, line_color: None }))"
    );
    assert_eq!(cmd_gc(&chars("^GCx"), 0).unwrap_err(), hard(ErrorKind::Digit, 3));
    assert_eq!(
        show(cmd_ge(&chars("^GE30,20,2,W"), 0)),
        "Ok((12, GraphicEllipse { width: Some(30), height: Some(20), border_thickness: Some(2), line_color: Some('W') }))"
    );
    assert_eq!(cmd_ge(&chars("^GE-1"), 0).unwrap_err(), hard(ErrorKind::Digit, 3));
}

#[test]
fn graphic_field() {
    assert_eq!(
        show(cmd_gf(&chars("^GFA,4,4,2,FFFF0000^FS"), 0)),
        "Ok((19, GraphicField { compression_type: Some('A'), binary_byte_count: Some(4), graphic_field_count: Some(4), bytes_per_row: Some(2), data: \"FFFF0000\" }))"
    );
    assert_eq!(
        show(cmd_gf(&chars("^GF"), 0)),
        "Ok((3, GraphicField { compression_type: None, binary_byte_count: None, graphic_field_count: None, bytes_per_row: None, data: \"\" }))"
    );
    // a short parameter list: what follows is payload
    assert_eq!(
        show(cmd_gf(&chars("^GFA,8, 0F "), 0)),
        "Ok((11, GraphicField { compression_type: Some('A'), binary_byte_count: Some(8), graphic_field_count: None, bytes_per_row: None, data: \"0F\" }))"
    );
    assert_eq!(cmd_gf(&chars("^GF A"), 0).unwrap_err(), hard(ErrorKind::NoneOf, 3));
}

#[test]
fn barcode_commands_end_at_the_next_caret() {
    assert_eq!(
        show(cmd_bc(&chars("^BCN,100,Y,N,N,A^FD"), 0)),
        "Ok((16, Code128 { orientation: Some('N'), height: Some(100), interpretation_line: Some('Y'), interpretation_line_above: Some('N'), check_digit: Some('N'), mode: Some('A') }))"
    );
    assert_eq!(
        show(cmd_bc(&chars("^BC"), 0)),
        "Ok((3, Code128 { orientation: None, height: None, interpretation_line: None, interpretation_line_above: None, check_digit: None, mode: None }))"
    );
    // what cannot be read is skipped up to the caret
    assert_eq!(
        show(cmd_bc(&chars("^BCN,abc,junk^FS"), 0)),
        "Ok((13, Code128 { orientation: Some('N'), height: None, interpretation_line: Some('a'), interpretation_line_above: None, check_digit: None, mode: None }))"
    );
    assert_eq!(cmd_bc(&chars("^BC N"), 0).unwrap_err(), soft(ErrorKind::NoneOf, 3));
    assert_eq!(
        show(cmd_bq(&chars("^BQN,2,5,H,7"), 0)),
        "Ok((12, QRCode { orientation: Some('N'), model: Some(2), magnification: Some(5), error_correction: Some('H'), mask: Some(7) }))"
    );
    assert_eq!(
        show(cmd_b3(&chars("^B3R,Y,80,N,Y"), 0)),
        "Ok((13, Code39 { orientation: Some('R'), check_digit: Some('Y'), height: Some(80), interpretation_line: Some('N'), interpretation_line_above: Some('Y') }))"
    );
    assert_eq!(
        show(cmd_bx(&chars("^BXN,4,200,16,16"), 0)),
        "Ok((16, DataMatrix { orientation: Some('N'), height: Some(4), quality: Some(200), columns: Some(16), rows: Some(16) }))"
    );
}

#[test]
fn barcode_defaults_keep_the_ratio_as_written() {
    assert_eq!(
        show(cmd_by(&chars("^BY2,3.0,20"), 0)),
        "Ok((11, BarcodeDefault { module_width: Some(2), ratio: Some(\"3.0\"), height: Some(20) }))"
    );
    assert_eq!(
        show(cmd_by(&chars("^BY2,3,20"), 0)),
        "Ok((9, BarcodeDefault { module_width: Some(2), ratio: Some(\"3\"), height: Some(20) }))"
    );
    assert_eq!(
        show(cmd_by(&chars("^BY,,40^"), 0)),
        "Ok((7, BarcodeDefault { module_width: None, ratio: None, height: Some(40) }))"
    );
    assert_eq!(cmd_by(&chars("^BYx"), 0).unwrap_err(), soft(ErrorKind::Digit, 3));
}

#[test]
fn custom_image_needs_everything() {
    assert_eq!(
        show(cmd_gic(&chars("^GIC10,20, aGVsbG8= ^FS"), 0)),
        "Ok((20, CustomImage { width: 10, height: 20, data: \"aGVsbG8=\" }))"
    );
    assert_eq!(cmd_gic(&chars("^GIC"), 0).unwrap_err(), hard(ErrorKind::Digit, 4));
    assert_eq!(cmd_gic(&chars("^GIC10"), 0).unwrap_err(), hard(ErrorKind::Tag, 6));
    assert_eq!(cmd_gic(&chars("^GIC10,"), 0).unwrap_err(), hard(ErrorKind::MapRes, 6));
    assert_eq!(cmd_gic(&chars("^GIC10,,x"), 0).unwrap_err(), hard(ErrorKind::MapRes, 6));
    assert_eq!(cmd_gic(&chars("^GIC10,x"), 0).unwrap_err(), hard(ErrorKind::Digit, 7));
    assert_eq!(cmd_gic(&chars("^GIC10,20"), 0).unwrap_err(), hard(ErrorKind::Tag, 9));
    assert_eq!(cmd_gic(&chars("^GIC10,20,"), 0).unwrap_err(), hard(ErrorKind::MapRes, 10));
    assert_eq!(cmd_gic(&chars("^GIC10,20,  ^FS"), 0).unwrap_err(), hard(ErrorKind::MapRes, 10));
    assert_eq!(cmd_gic(&chars("^GIX"), 0).unwrap_err(), soft(ErrorKind::Tag, 0));
}

#[test]
fn unknown_commands_pass_through() {
    assert_eq!(
        show(cmd_unsupported(&chars("^ZZfoo^FS"), 0)),
        "Ok((6, UnsupportedCommand { command: \"^ZZ\", args: \"foo\" }))"
    );
    assert_eq!(
        show(cmd_unsupported(&chars("^CI28 "), 0)),
        "Ok((6, UnsupportedCommand { command: \"^CI\", args: \"28\" }))"
    );
    assert_eq!(cmd_unsupported(&chars("ZZ"), 0).unwrap_err(), soft(ErrorKind::Tag, 0));
    assert_eq!(cmd_unsupported(&chars("^Z"), 0).unwrap_err(), soft(ErrorKind::Eof, 1));
    assert_eq!(cmd_unsupported(&chars(""), 0).unwrap_err(), soft(ErrorKind::Tag, 0));
}

#[test]
fn unknown_command_does_not_abort_parsing() {
    let commands = parse_zpl("^ZZfoo^FS").unwrap();
    assert_eq!(
        format!("{:?}", commands),
        "[UnsupportedCommand { command: \"^ZZ\", args: \"foo\" }, FieldSeparator]"
    );
}

#[test]
fn a_command_that_fails_softly_falls_through_to_the_catch_all() {
    // the font command cannot read white space as an orientation
    assert_eq!(
        show(command(&chars("^A0\n^FD"), 0)),
        "Ok((4, UnsupportedCommand { command: \"^A0\", args: \"\" }))"
    );
    assert_eq!(
        show(command(&chars("^BC N"), 0)),
        "Ok((5, UnsupportedCommand { command: \"^BC\", args: \"N\" }))"
    );
}

#[test]
fn standard_commands_win_over_the_catch_all() {
    assert_eq!(show(command(&chars("^XA"), 0)), "Ok((3, StartFormat))");
    assert_eq!(show(command(&chars("^FDx"), 0)), "Ok((4, FieldData { data: \"x\" }))");
    assert_eq!(
        show(command(&chars("^GLCred"), 0)),
        "Ok((7, GraphicLineColor { color: \"red\" }))"
    );
    assert_eq!(command(&chars("^GB1"), 0).unwrap_err(), hard(ErrorKind::Tag, 4));
}

#[test]
fn parse_zpl_reads_a_whole_label() {
    let commands = parse_zpl("\n  ^XA\n^FO50,50 ^A0N,50,50\t^FDHello^FS\r\n^XZ  \n").unwrap();
    assert_eq!(
        format!("{:?}", commands),
        "[StartFormat, FieldOrigin { x: Some(50), y: Some(50) }, \
         FontSpecFull { font_name: '0', orientation: Some('N'), height: Some(50), width: Some(50) }, \
         FieldData { data: \"Hello\" }, FieldSeparator, EndFormat]"
    );
}

#[test]
fn parse_zpl_of_nothing_is_no_commands() {
    assert!(parse_zpl("").unwrap().is_empty());
    assert!(parse_zpl(" \n\t\r ").unwrap().is_empty());
}

#[test]
fn parse_zpl_counts_lines_by_line_feeds() {
    match parse_zpl("^XA\r\n\r\n^FO1,1\n^GB7\n") {
        Err(ZplError::ParseError { line, message }) => {
            assert_eq!(line, 4);
            assert_eq!(message, "Invalid or malformed ZPL command (Error code: Tag)");
        }
        other => panic!("unexpected result {:?}", other),
    }
}

#[test]
fn parse_zpl_is_the_same_every_time() {
    let text = "^XA^BY2,3,20^FO10,10^BCN^FD123^FS^GFA,2,2,1,FF00^FS^XZ";
    assert_eq!(format!("{:?}", parse_zpl(text)), format!("{:?}", parse_zpl(text)));
}

const SAMPLES: [&str; 14] = [
    "",
    "0",
    "12,34",
    "007^FS",
    "4294967295",
    "4294967296",
    " 12",
    "x",
    "\t\r\n ^XA",
    "\u{a0}1",
    "1\u{660}2",
    "N,Y",
    ",",
    "^",
];

#[test]
fn scanning_agrees_with_nom() {
    for sample in SAMPLES {
        let input = chars(sample);
        let digits: nom::IResult<&str, &str> = nom::character::complete::digit0(sample);
        let spaces: nom::IResult<&str, &str> = nom::character::complete::multispace0(sample);
        let text: nom::IResult<&str, &str> =
            nom::bytes::complete::take_till(|c| c == '^')(sample);
        assert_eq!(scan_digits(&input, 0), digits.unwrap().1.chars().count(), "{:?}", sample);
        assert_eq!(skip_whitespace(&input, 0), spaces.unwrap().1.chars().count(), "{:?}", sample);
        assert_eq!(scan_text(&input, 0), text.unwrap().1.chars().count(), "{:?}", sample);
    }
}

#[test]
fn one_character_parameters_agree_with_nom() {
    for sample in SAMPLES {
        let expected: nom::IResult<&str, char> =
            nom::character::complete::none_of(",^\r\n \t")(sample);
        match (parse_char(&chars(sample), 0), expected) {
            (Ok((next, c)), Ok((_, d))) => assert_eq!((next, c), (1, d)),
            (Err(f), Err(nom::Err::Error(e))) => {
                assert_eq!(format!("{:?}", f.kind), format!("{:?}", e.code));
                assert_eq!((f.at, f.fatal), (0, false));
            }
            (ours, theirs) => panic!("{:?}: {:?} against {:?}", sample, ours, theirs),
        }
    }
}
