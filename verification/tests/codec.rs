use zpl_forge::tools::{zpl_decode, MAX_DECODED_SIZE};

#[test]
fn decode_pairs_hex_digits_high_nibble_first() {
    assert_eq!(zpl_decode("0FA5", 0), vec![0x0F, 0xA5]);
    assert_eq!(zpl_decode("0fa5", 0), vec![0x0F, 0xA5]);
}

#[test]
fn decode_flushes_trailing_high_nibble() {
    assert_eq!(zpl_decode("ABC", 0), vec![0xAB, 0xC0]);
}

#[test]
fn decode_unit_markers_repeat_next_digit() {
    // G = 1 .. Y = 19
    assert_eq!(zpl_decode("HF", 0), vec![0xFF]);
    assert_eq!(zpl_decode("JA", 0), vec![0xAA, 0xAA]);
    assert_eq!(zpl_decode("Y1", 0).len(), 10);
}

#[test]
fn decode_score_markers_count_in_twenties() {
    assert_eq!(zpl_decode("g0", 0), vec![0u8; 10]);
    assert_eq!(zpl_decode("z0", 0), vec![0u8; 200]);
    // markers add up: 20 + 2 = 22 nibbles
    assert_eq!(zpl_decode("gHF", 0), vec![0xFFu8; 11]);
}

#[test]
fn decode_ignores_other_characters() {
    assert_eq!(zpl_decode("A B\n#C_D", 0), vec![0xAB, 0xCD]);
}

#[test]
fn decode_comma_fills_row_with_zeros() {
    assert_eq!(zpl_decode("FF,", 3), vec![0xFF, 0, 0]);
    // on a row boundary the first comma adds nothing, the second a whole row
    assert_eq!(zpl_decode("FFFFFF,", 3), vec![0xFF, 0xFF, 0xFF]);
    assert_eq!(zpl_decode("FFFFFF,,", 3), vec![0xFF, 0xFF, 0xFF, 0, 0, 0]);
}

#[test]
fn decode_bang_fills_row_with_ones() {
    assert_eq!(zpl_decode("00!", 3), vec![0x00, 0xFF, 0xFF]);
    // a waiting high nibble is completed with F
    assert_eq!(zpl_decode("0!", 2), vec![0x0F, 0xFF]);
}

#[test]
fn decode_colon_repeats_previous_row() {
    assert_eq!(zpl_decode("A1B2:", 2), vec![0xA1, 0xB2, 0xA1, 0xB2]);
    // mid-row: the rest of the row is copied from the row above
    assert_eq!(zpl_decode("A1B2C3:", 2), vec![0xA1, 0xB2, 0xC3, 0xB2]);
    // no row above: zero fill
    assert_eq!(zpl_decode("A1:", 2), vec![0xA1, 0x00]);
    // multiplier: H = 2 repeats
    assert_eq!(zpl_decode("A1B2H:", 2), vec![0xA1, 0xB2, 0xA1, 0xB2, 0xA1, 0xB2]);
}

#[test]
fn decode_row_characters_do_nothing_without_row_length() {
    assert_eq!(zpl_decode("AB:,!", 0), vec![0xAB]);
}

#[test]
fn decode_stops_growing_at_the_cap() {
    // each "zzzzzzzzzzzzzzzzzzzzzzzzzF" asks for 10_000 nibbles; ask for far more than 10 MiB
    let mut text = String::new();
    for _ in 0..3000 {
        text.push_str("zzzzzzzzzzzzzzzzzzzzzzzzzF");
    }
    let out = zpl_decode(&text, 0);
    assert_eq!(out.len(), MAX_DECODED_SIZE);
    assert!(out.iter().all(|b| *b == 0xFF));
}

#[test]
fn decode_row_repeats_stop_at_the_cap() {
    let mut text = String::from("FF");
    for _ in 0..12000 {
        text.push_str("zzzzzzzzzzzzzzzzzzzzzzzzz:");
    }
    let out = zpl_decode(&text, 1024);
    assert_eq!(out.len(), MAX_DECODED_SIZE);
    // a row that does not fit whole is not copied
    let out = zpl_decode(&text, 1000);
    assert_eq!(out.len(), MAX_DECODED_SIZE - MAX_DECODED_SIZE % 1000);
}

#[test]
fn decode_fills_stop_at_the_cap() {
    // the second comma asks for a whole row of zeros
    assert_eq!(zpl_decode(",,", 20_000_000), vec![0u8; MAX_DECODED_SIZE]);
    assert_eq!(zpl_decode(",!", usize::MAX), vec![0xFFu8; MAX_DECODED_SIZE]);
    // a started row is filled up to the cap
    let out = zpl_decode("A5,", usize::MAX);
    assert_eq!(out.len(), MAX_DECODED_SIZE);
    assert_eq!(&out[..3], &[0xA5, 0, 0]);
    let out = zpl_decode("A5!", 20_000_000);
    assert_eq!(out.len(), MAX_DECODED_SIZE);
    assert_eq!(&out[..3], &[0xA5, 0xFF, 0xFF]);
    // so is a row that is completed from the row above, or from nothing
    let out = zpl_decode("A5:", usize::MAX);
    assert_eq!(out.len(), MAX_DECODED_SIZE);
    assert_eq!(&out[..3], &[0xA5, 0, 0]);
    // at the cap nothing is added any more
    let out = zpl_decode(",,A5,!:zF", 20_000_000);
    assert_eq!(out, vec![0u8; MAX_DECODED_SIZE]);
}

#[test]
fn decode_completes_rows_up_to_the_cap() {
    // rows of 6 MiB: the first is full, the second is started and completed from the first
    let row = 6 * 1024 * 1024;
    let out = zpl_decode("A5,B6:", row);
    assert_eq!(out.len(), MAX_DECODED_SIZE);
    assert_eq!(&out[..2], &[0xA5, 0]);
    assert_eq!(&out[row..row + 3], &[0xB6, 0, 0]);
    let out = zpl_decode("A5!B6:", row);
    assert_eq!(&out[row..row + 3], &[0xB6, 0xFF, 0xFF]);
    assert_eq!(out.len(), MAX_DECODED_SIZE);
}
