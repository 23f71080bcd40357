use zpl_forge::tools::encode::{compress_runs, encode_luma, pack_bitmap, LumaImage};
use zpl_forge::tools::{zpl_decode, zpl_encode};
use zpl_forge::ZplError;

fn compress(text: &str) -> String {
    compress_runs(&text.chars().collect())
}

/// A grey image as a PNG file.
fn greymap(width: u32, height: u32, pixels: &[u8]) -> Vec<u8> {
    let image = image::GrayImage::from_raw(width, height, pixels.to_vec()).unwrap();
    let mut bytes = Vec::new();
    image
        .write_to(&mut std::io::Cursor::new(&mut bytes), image::ImageFormat::Png)
        .unwrap();
    bytes
}

#[test]
fn single_characters_stay_as_they_are() {
    assert_eq!(compress(""), "");
    assert_eq!(compress("A"), "A");
    assert_eq!(compress("0123456789ABCDEF"), "0123456789ABCDEF");
}

#[test]
fn short_runs_get_a_unit_marker() {
    assert_eq!(compress("FF"), "HF");
    assert_eq!(compress("000"), "I0");
    assert_eq!(compress(&"A".repeat(19)), "YA");
}

#[test]
fn long_runs_get_a_score_marker_and_a_unit_marker() {
    assert_eq!(compress(&"0".repeat(20)), "g0");
    assert_eq!(compress(&"0".repeat(21)), "gG0");
    assert_eq!(compress(&"0".repeat(39)), "gY0");
    assert_eq!(compress(&"0".repeat(40)), "h0");
    assert_eq!(compress(&"0".repeat(399)), "yY0");
    assert_eq!(compress(&"0".repeat(400)), "z0");
}

#[test]
fn runs_end_after_four_hundred() {
    assert_eq!(compress(&"0".repeat(401)), "z00");
    assert_eq!(compress(&"0".repeat(802)), "z0z0H0");
}

#[test]
fn runs_are_compressed_one_after_the_other() {
    assert_eq!(compress("FFFF0000A"), "JFJ0A");
    assert_eq!(compress("AABAA"), "HABHA");
}

#[test]
fn bitmap_sets_a_bit_for_each_dark_pixel() {
    // 10 pixels per row: two bytes, the last six bits unused
    let mut pixels = vec![255u8; 20];
    pixels[0] = 0; // row 0, leftmost: the most significant bit
    pixels[7] = 127; // row 0, last bit of the first byte
    pixels[8] = 128; // not dark
    pixels[9] = 1; // row 0, second bit of the second byte
    pixels[10] = 100; // row 1, leftmost
    let image = LumaImage { width: 10, height: 2, pixels };
    let (bitmap, bytes_per_row) = pack_bitmap(&image);
    assert_eq!(bytes_per_row, 2);
    assert_eq!(bitmap, vec![0b1000_0001, 0b0100_0000, 0b1000_0000, 0b0000_0000]);
}

#[test]
fn bitmap_of_an_empty_image_is_empty() {
    let (bitmap, bytes_per_row) = pack_bitmap(&LumaImage { width: 0, height: 0, pixels: vec![] });
    assert_eq!((bitmap.len(), bytes_per_row), (0, 0));
    let (bitmap, bytes_per_row) = pack_bitmap(&LumaImage { width: 9, height: 0, pixels: vec![] });
    assert_eq!((bitmap.len(), bytes_per_row), (0, 2));
    let (bitmap, bytes_per_row) = pack_bitmap(&LumaImage { width: 0, height: 5, pixels: vec![] });
    assert_eq!((bitmap.len(), bytes_per_row), (0, 0));
}

#[test]
fn encode_luma_writes_hex_and_compresses() {
    // 16 dark pixels, then 16 light ones
    let mut pixels = vec![0u8; 16];
    pixels.extend_from_slice(&[255u8; 16]);
    let image = LumaImage { width: 16, height: 2, pixels };
    let (text, total, per_row) = encode_luma(&image);
    assert_eq!(text, "JFJ0");
    assert_eq!(total, 4);
    assert_eq!(per_row, 2);
}

#[test]
fn encode_luma_writes_upper_case_digits() {
    // 1010 1011 = AB, 1100 1101 = CD
    let bits = [1, 0, 1, 0, 1, 0, 1, 1, 1, 1, 0, 0, 1, 1, 0, 1];
    let pixels: Vec<u8> = bits.iter().map(|b| if *b == 1 { 0 } else { 255 }).collect();
    let (text, total, per_row) = encode_luma(&LumaImage { width: 16, height: 1, pixels });
    assert_eq!((text.as_str(), total, per_row), ("ABCD", 2, 2));
}

#[test]
fn decoding_gives_the_bitmap_back() {
    let mut pixels = Vec::new();
    for y in 0..37u32 {
        for x in 0..53u32 {
            let dark = (x * 7 + y * 13) % 11 < 4 || (y > 10 && y < 30 && x < 40);
            pixels.push(if dark { 10 } else { 240 });
        }
    }
    let image = LumaImage { width: 53, height: 37, pixels };
    let (bitmap, bytes_per_row) = pack_bitmap(&image);
    let (text, total, per_row) = encode_luma(&image);
    assert_eq!(total, bitmap.len());
    assert_eq!(per_row, bytes_per_row);
    assert_eq!(zpl_decode(&text, per_row), bitmap);
    assert_eq!(zpl_decode(&text, 0), bitmap);
    assert_eq!(zpl_decode(&text, 1000), bitmap);
}

#[test]
fn decoding_gives_long_runs_back() {
    let image = LumaImage { width: 4000, height: 3, pixels: vec![0u8; 12000] };
    let (bitmap, _) = pack_bitmap(&image);
    let (text, total, per_row) = encode_luma(&image);
    assert_eq!((total, per_row), (1500, 500));
    assert_eq!(text, "zFzFzFzFzFzFzFpF");
    assert_eq!(zpl_decode(&text, per_row), bitmap);
}

#[test]
fn zpl_encode_decodes_the_image_first() {
    let mut pixels = vec![0u8; 16];
    pixels.extend_from_slice(&[255u8; 16]);
    let (text, total, per_row) = zpl_encode(&greymap(16, 2, &pixels)).unwrap();
    assert_eq!((text.as_str(), total, per_row), ("JFJ0", 4, 2));
}

#[test]
fn zpl_encode_pads_rows_to_whole_bytes() {
    let (text, total, per_row) = zpl_encode(&greymap(3, 2, &[0, 255, 0, 255, 0, 255])).unwrap();
    // rows 101 and 010, padded: A0 and 40
    assert_eq!((text.as_str(), total, per_row), ("A040", 2, 1));
    assert_eq!(zpl_decode(&text, per_row), vec![0xA0, 0x40]);
}

#[test]
fn zpl_encode_reduces_colours_to_brightness() {
    // dark red, bright yellow, black, white
    let pixels = [90, 0, 0, 255, 255, 0, 0, 0, 0, 255, 255, 255];
    let image = image::RgbImage::from_raw(4, 1, pixels.to_vec()).unwrap();
    let mut bytes = Vec::new();
    image
        .write_to(&mut std::io::Cursor::new(&mut bytes), image::ImageFormat::Png)
        .unwrap();
    let (text, total, per_row) = zpl_encode(&bytes).unwrap();
    // bits 1010, padded to a byte: A0
    assert_eq!((text.as_str(), total, per_row), ("A0", 1, 1));
}

#[test]
fn zpl_encode_refuses_what_is_no_image() {
    match zpl_encode(b"definitely not an image") {
        Err(ZplError::ImageError(message)) => {
            assert!(message.starts_with("Failed to load image from bytes: "));
            assert!(message.len() > "Failed to load image from bytes: ".len());
        }
        other => panic!("unexpected result {:?}", other),
    }
    assert!(matches!(zpl_encode(&[]), Err(ZplError::ImageError(_))));
}

#[test]
fn test_zpl_encode_from_jpg_file() {
    // A photograph-like image, compressed as JPEG in memory
    let mut image = image::RgbImage::new(48, 32);
    for (x, y, pixel) in image.enumerate_pixels_mut() {
        let v = ((x * 5 + y * 3) % 256) as u8;
        *pixel = image::Rgb([v, 255 - v, (x * y % 256) as u8]);
    }
    let mut image_bytes = Vec::new();
    image
        .write_to(&mut std::io::Cursor::new(&mut image_bytes), image::ImageFormat::Jpeg)
        .unwrap();

    // Perform encoding
    let result = zpl_encode(&image_bytes);

    // Verify the result
    assert!(result.is_ok(), "Encoding process failed: {:?}", result.err());

    let (encoded_str, total_bytes, bytes_per_row) = result.unwrap();

    // Sanity checks on the output
    assert!(!encoded_str.is_empty(), "The resulting ZPL string should not be empty");
    assert!(total_bytes > 0, "Total bytes should be greater than zero");
    assert!(bytes_per_row > 0, "Bytes per row should be greater than zero");
    assert_eq!((total_bytes, bytes_per_row), (192, 6));
    assert_eq!(zpl_decode(&encoded_str, bytes_per_row).len(), total_bytes);

    println!(
        "^GFA,{},{},{},{}^FS",
        total_bytes.clone(),
        total_bytes.clone(),
        bytes_per_row,
        encoded_str
    );
    println!("Bytes per row: {}", bytes_per_row);
}
