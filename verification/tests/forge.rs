use zpl_forge::forge::color::{box_colors, parse_hex_color, Rgb};
use zpl_forge::forge::layout::{
    bar_rect, barcode_extent, bitmap_pixel, box_shapes, circle_shapes, code128_code_set,
    ellipse_shapes, interpretation_origin, inverted_area, module_rect, place, qr_level, Placed,
    Shape,
};

const BLACK: Rgb = Rgb { r: 0, g: 0, b: 0 };
const WHITE: Rgb = Rgb { r: 255, g: 255, b: 255 };

fn color(text: &str) -> Rgb {
    parse_hex_color(&Some(text.to_string()))
}

#[test]
fn hex_colours_with_six_digits() {
    assert_eq!(color("#FF8000"), Rgb { r: 255, g: 128, b: 0 });
    assert_eq!(color("ff8000"), Rgb { r: 255, g: 128, b: 0 });
    assert_eq!(color("###0a0B0c"), Rgb { r: 10, g: 11, b: 12 });
    // a plus sign counts as a sign, as it does for numbers
    assert_eq!(color("+1+2+3"), Rgb { r: 1, g: 2, b: 3 });
}

#[test]
fn hex_colours_with_three_digits() {
    assert_eq!(color("#F80"), Rgb { r: 255, g: 136, b: 0 });
    assert_eq!(color("abc"), Rgb { r: 170, g: 187, b: 204 });
}

#[test]
fn unreadable_colours_are_black() {
    for text in ["", "#", "#12", "#1234", "#12345", "#1234567", "#GG0000", "#12345G", "+12", "#1+2", "12 456", "#-10000", "é1234", "ééé"] {
        assert_eq!(color(text), BLACK, "{}", text);
    }
    assert_eq!(parse_hex_color(&None), BLACK);
}

#[test]
fn box_colours() {
    assert_eq!(box_colors('B', &None), (BLACK, WHITE));
    assert_eq!(box_colors('W', &None), (WHITE, BLACK));
    assert_eq!(box_colors('x', &None), (WHITE, BLACK));
    assert_eq!(
        box_colors('W', &Some("#010203".to_string())),
        (Rgb { r: 1, g: 2, b: 3 }, WHITE)
    );
    assert_eq!(box_colors('B', &Some("nonsense".to_string())), (BLACK, WHITE));
}

#[test]
fn a_plain_box_is_two_rectangles() {
    assert_eq!(
        box_shapes(10, 20, 100, 50, 3, 0, BLACK, WHITE),
        vec![
            Shape::Rect { x: 10, y: 20, width: 100, height: 50, color: BLACK },
            Shape::Rect { x: 13, y: 23, width: 94, height: 44, color: WHITE },
        ]
    );
}

#[test]
fn a_thick_border_fills_the_box() {
    assert_eq!(
        box_shapes(0, 0, 10, 10, 5, 0, BLACK, WHITE),
        vec![Shape::Rect { x: 0, y: 0, width: 10, height: 10, color: BLACK }]
    );
    assert_eq!(
        box_shapes(0, 0, 100, 4, 2, 0, BLACK, WHITE),
        vec![Shape::Rect { x: 0, y: 0, width: 100, height: 4, color: BLACK }]
    );
    assert_eq!(
        box_shapes(0, 0, 10, 10, 4294967295, 0, BLACK, WHITE),
        vec![Shape::Rect { x: 0, y: 0, width: 10, height: 10, color: BLACK }]
    );
}

#[test]
fn a_box_without_size_is_one_dot() {
    assert_eq!(
        box_shapes(7, 8, 0, 0, 1, 0, BLACK, WHITE),
        vec![Shape::Rect { x: 7, y: 8, width: 1, height: 1, color: BLACK }]
    );
}

#[test]
fn a_rounded_box_is_bars_and_corner_circles() {
    // rounding 1 is a radius of 8
    let shapes = box_shapes(10, 20, 100, 50, 2, 1, BLACK, WHITE);
    assert_eq!(
        shapes,
        vec![
            Shape::Rect { x: 18, y: 20, width: 84, height: 50, color: BLACK },
            Shape::Rect { x: 10, y: 28, width: 100, height: 34, color: BLACK },
            Shape::Circle { x: 18, y: 28, radius: 8, color: BLACK },
            Shape::Circle { x: 101, y: 28, radius: 8, color: BLACK },
            Shape::Circle { x: 18, y: 61, radius: 8, color: BLACK },
            Shape::Circle { x: 101, y: 61, radius: 8, color: BLACK },
            Shape::Rect { x: 18, y: 22, width: 84, height: 46, color: WHITE },
            Shape::Rect { x: 12, y: 28, width: 96, height: 34, color: WHITE },
            Shape::Circle { x: 18, y: 28, radius: 6, color: WHITE },
            Shape::Circle { x: 101, y: 28, radius: 6, color: WHITE },
            Shape::Circle { x: 18, y: 61, radius: 6, color: WHITE },
            Shape::Circle { x: 101, y: 61, radius: 6, color: WHITE },
        ]
    );
}

#[test]
fn the_corner_radius_is_at_most_half_a_side() {
    let shapes = box_shapes(0, 0, 10, 4, 100, 8, BLACK, WHITE);
    assert_eq!(
        shapes,
        vec![
            Shape::Rect { x: 2, y: 0, width: 6, height: 4, color: BLACK },
            Shape::Rect { x: 0, y: 2, width: 10, height: 1, color: BLACK },
            Shape::Circle { x: 2, y: 2, radius: 2, color: BLACK },
            Shape::Circle { x: 7, y: 2, radius: 2, color: BLACK },
            Shape::Circle { x: 2, y: 1, radius: 2, color: BLACK },
            Shape::Circle { x: 7, y: 1, radius: 2, color: BLACK },
        ]
    );
    // the largest box there is does not overflow
    let shapes = box_shapes(u32::MAX, u32::MAX, u32::MAX, u32::MAX, 1, u32::MAX, BLACK, WHITE);
    assert_eq!(shapes.len(), 12);
}

#[test]
fn circles() {
    assert_eq!(
        circle_shapes(10, 20, 30, 4, BLACK, WHITE),
        vec![
            Shape::Circle { x: 40, y: 50, radius: 30, color: BLACK },
            Shape::Circle { x: 40, y: 50, radius: 26, color: WHITE },
        ]
    );
    assert_eq!(
        circle_shapes(0, 0, 5, 5, BLACK, WHITE),
        vec![Shape::Circle { x: 5, y: 5, radius: 5, color: BLACK }]
    );
    assert_eq!(circle_shapes(u32::MAX, u32::MAX, u32::MAX, 0, BLACK, WHITE).len(), 2);
}

#[test]
fn ellipses() {
    assert_eq!(
        ellipse_shapes(10, 20, 61, 40, 4, BLACK, WHITE),
        vec![
            Shape::Ellipse { x: 40, y: 40, radius_x: 30, radius_y: 20, color: BLACK },
            Shape::Ellipse { x: 40, y: 40, radius_x: 26, radius_y: 16, color: WHITE },
        ]
    );
    assert_eq!(
        ellipse_shapes(0, 0, 60, 8, 4, BLACK, WHITE),
        vec![Shape::Ellipse { x: 30, y: 4, radius_x: 30, radius_y: 4, color: BLACK }]
    );
}

#[test]
fn rectangles_turn_with_their_symbol() {
    // a symbol of 100 by 40 at (10, 20); a bar at (30, 0), 5 wide, 40 high
    let at = |o: char| place(o, 10, 20, 30, 0, 5, 40, 100, 40);
    assert_eq!(at('N'), Placed { x: 40, y: 20, width: 5, height: 40 });
    assert_eq!(at('R'), Placed { x: 10, y: 50, width: 40, height: 5 });
    assert_eq!(at('I'), Placed { x: 75, y: 20, width: 5, height: 40 });
    assert_eq!(at('B'), Placed { x: 10, y: 85, width: 40, height: 5 });
    assert_eq!(at('?'), at('N'));
    // a rectangle beyond the symbol lands left of it when the symbol is turned round
    assert_eq!(
        place('I', 0, 0, 90, 0, 20, 1, 100, 1),
        Placed { x: -10, y: 0, width: 20, height: 1 }
    );
}

#[test]
fn bars_of_a_barcode() {
    assert_eq!(bar_rect('N', 10, 20, 3, 50, 2, 40), Some(Placed { x: 16, y: 20, width: 2, height: 40 }));
    // a module width of zero counts as one
    assert_eq!(bar_rect('N', 10, 20, 3, 50, 0, 40), Some(Placed { x: 13, y: 20, width: 1, height: 40 }));
    assert_eq!(bar_rect('I', 0, 0, 0, 50, 2, 40), Some(Placed { x: 98, y: 0, width: 2, height: 40 }));
    assert_eq!(bar_rect('R', 0, 0, 1, 50, 2, 40), Some(Placed { x: 0, y: 2, width: 40, height: 2 }));
    assert_eq!(bar_rect('N', 0, 0, 3, 50, 2, 0), None);
    assert_eq!(bar_rect('N', 0, 0, 50, 50, 2, 40), None);
    assert_eq!(bar_rect('N', 0, 0, 1, 3, u32::MAX, 40), None);
}

#[test]
fn modules_of_a_matrix_code() {
    assert_eq!(
        module_rect('N', 10, 20, 2, 3, 21, 21, 4),
        Some(Placed { x: 18, y: 32, width: 4, height: 4 })
    );
    assert_eq!(
        module_rect('I', 0, 0, 0, 0, 21, 21, 4),
        Some(Placed { x: 80, y: 80, width: 4, height: 4 })
    );
    assert_eq!(
        module_rect('R', 0, 0, 0, 1, 21, 21, 0),
        Some(Placed { x: 19, y: 0, width: 1, height: 1 })
    );
    assert_eq!(module_rect('N', 0, 0, 21, 0, 21, 21, 4), None);
    assert_eq!(module_rect('N', 0, 0, 0, 21, 21, 21, 4), None);
    assert_eq!(module_rect('N', 0, 0, 0, 0, 21, 21, u32::MAX), None);
}

#[test]
fn extent_of_a_turned_barcode() {
    assert_eq!(barcode_extent('N', 100, 40), (100, 40));
    assert_eq!(barcode_extent('I', 100, 40), (100, 40));
    assert_eq!(barcode_extent('R', 100, 40), (40, 100));
    assert_eq!(barcode_extent('B', 100, 40), (40, 100));
    assert_eq!(barcode_extent('x', 100, 40), (100, 40));
}

#[test]
fn interpretation_line_goes_below_or_above() {
    assert_eq!(interpretation_origin(10, 100, 200, 40, 'N', 50), (85, 146));
    assert_eq!(interpretation_origin(10, 100, 200, 40, 'Y', 50), (85, 88));
    assert_eq!(interpretation_origin(10, 7, 200, 40, 'Y', 50), (85, 6));
    // text wider than the barcode starts where the barcode starts
    assert_eq!(interpretation_origin(10, 100, 40, 40, 'N', 50), (10, 146));
    assert_eq!(interpretation_origin(10, 100, 50, 40, 'N', 50), (10, 146));
    assert_eq!(
        interpretation_origin(u32::MAX, u32::MAX, u32::MAX, 40, 'N', 0),
        (u32::MAX, u32::MAX)
    );
}

#[test]
fn code_sets_of_code_128() {
    assert_eq!(code128_code_set(">:ABC"), ("ABC".to_string(), Some('B')));
    assert_eq!(code128_code_set(">;123456"), ("123456".to_string(), Some('C')));
    assert_eq!(code128_code_set(">9abc"), ("abc".to_string(), Some('A')));
    assert_eq!(code128_code_set(">:"), (String::new(), Some('B')));
    assert_eq!(code128_code_set(">8abc"), (">8abc".to_string(), None));
    assert_eq!(code128_code_set("12>:34"), ("12>:34".to_string(), None));
    assert_eq!(code128_code_set(">"), (">".to_string(), None));
    assert_eq!(code128_code_set(""), (String::new(), None));
}

#[test]
fn levels_of_qr_codes() {
    assert_eq!(qr_level('L'), 'L');
    assert_eq!(qr_level('M'), 'M');
    assert_eq!(qr_level('Q'), 'Q');
    assert_eq!(qr_level('H'), 'H');
    assert_eq!(qr_level('x'), 'M');
    assert_eq!(qr_level('h'), 'M');
}

#[test]
fn pixels_of_a_bitmap() {
    // 10 pixels per row, two bytes per row
    let data = vec![0b1000_0001, 0b0100_0000, 0b0000_0000, 0b1100_0000];
    let set: Vec<(u32, u32)> = (0..3)
        .flat_map(|row| (0..12).map(move |column| (column, row)))
        .filter(|(column, row)| bitmap_pixel(&data, 10, 2, *column, *row))
        .collect();
    assert_eq!(set, vec![(0, 0), (7, 0), (9, 0), (8, 1), (9, 1)]);
    // data that is too short leaves the rest unset
    assert!(!bitmap_pixel(&data, 10, 5, 0, 2));
    assert!(!bitmap_pixel(&vec![], 8, 8, 0, 0));
    assert!(!bitmap_pixel(&vec![255], 0, 1, 0, 0));
    assert!(bitmap_pixel(&vec![255], u32::MAX, 1, 7, 0));
}

#[test]
fn inverting_leaves_out_the_last_column_and_row() {
    let rect = Placed { x: 10, y: 20, width: 5, height: 8 };
    assert_eq!(inverted_area(&rect, 100, 100), (10, 20, 14, 27));
    // clipped at the far side
    let rect = Placed { x: 90, y: 95, width: 50, height: 50 };
    assert_eq!(inverted_area(&rect, 100, 100), (90, 95, 100, 100));
    // beginning before the canvas
    let rect = Placed { x: -3, y: -3, width: 10, height: 10 };
    assert_eq!(inverted_area(&rect, 100, 100), (0, 0, 6, 6));
    // ending before the canvas
    let rect = Placed { x: -30, y: 5, width: 10, height: 10 };
    assert_eq!(inverted_area(&rect, 100, 100), (0, 5, 100, 14));
    // beyond the canvas
    let rect = Placed { x: 300, y: 5, width: 10, height: 10 };
    assert_eq!(inverted_area(&rect, 100, 100), (100, 5, 100, 14));
    let rect = Placed { x: i64::MAX, y: i64::MIN, width: u32::MAX, height: u32::MAX };
    assert_eq!(inverted_area(&rect, 100, 100), (100, 0, 100, 100));
}
