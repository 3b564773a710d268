use clipboard_qr::generator::{QRGenerator, QrError};

#[test]
fn test_qr_generator_with_empty_text() {
    let generator = QRGenerator::new();
    let result = generator.generate_qr_image("").unwrap();
    assert!(result.is_none());
}

#[test]
fn test_qr_generator_with_valid_text() {
    let generator = QRGenerator::new();
    let result = generator.generate_qr_image("Hello, World!").unwrap();
    assert!(result.is_some());
}

#[test]
fn test_svg_generation() {
    let generator = QRGenerator::new();
    let result = generator.generate_svg("Test QR Code");
    assert!(result.is_ok());
    let svg = result.unwrap();
    assert!(svg.contains("svg"));
}

#[test]
fn test_terminal_qr_generation() {
    let generator = QRGenerator::new();
    let result = generator.print_qr_terminal("Test");
    assert!(result.is_ok());
}

#[test]
fn test_terminal_qr_empty_text() {
    let generator = QRGenerator::new();
    let result = generator.print_qr_terminal("");
    assert!(result.is_err());
}

#[test]
fn generated_image_has_rgba_invariant() {
    let generator = QRGenerator::new();
    let img = generator.generate_qr_image("Hello, World!").unwrap().unwrap();
    assert_eq!(img.pixels.len(), img.width as usize * img.height as usize * 4);
    // The rendered matrix is square.
    assert_eq!(img.width, img.height);
    // Every pixel is fully opaque, pure black or pure white.
    for p in img.pixels.chunks(4) {
        assert_eq!(p[0], p[1]);
        assert_eq!(p[1], p[2]);
        assert!(p[0] == 0 || p[0] == 255);
        assert_eq!(p[3], 255);
    }
}

#[test]
fn svg_empty_text_is_empty_input_error() {
    let generator = QRGenerator::new();
    match generator.generate_svg("") {
        Err(QrError::EmptyInput) => {}
        _ => panic!("empty text must be rejected as empty input"),
    }
}

#[test]
fn overlong_text_is_encode_error() {
    let generator = QRGenerator::new();
    let long = "a".repeat(5000);
    match generator.generate_svg(&long) {
        Err(QrError::Encode(msg)) => assert!(!msg.is_empty()),
        _ => panic!("text beyond QR capacity must be an encoder error"),
    }
}

#[test]
fn terminal_lines_compress_rows_in_pairs() {
    let generator = QRGenerator::new();
    let lines = generator.qr_terminal_lines("Test").unwrap();
    assert!(!lines.is_empty());
    // Every emitted character is one of the four half-block cells.
    for line in &lines {
        for c in line.chars() {
            assert!(c == '\u{2588}' || c == '\u{2580}' || c == '\u{2584}' || c == ' ');
        }
    }
    // The grid the renderer produces for "Test" has an even row count of
    // at least two, so compression halves it; recover the row count from
    // the printed lines.
    let printed = generator.qr_terminal_lines("Test").unwrap();
    assert_eq!(printed.len(), lines.len());
}

#[test]
fn compress_lines_exact_cells() {
    // Two rows merge cell by cell; the unpaired third row renders with
    // upper half blocks on its own.
    let rows: Vec<Vec<char>> = vec![
        vec!['\u{2588}', ' ', '\u{2588}', '\u{2588}'],
        vec![' ', '\u{2588}', '\u{2588}', ' '],
        vec!['\u{2588}', ' '],
    ];
    let merged = clipboard_qr::generator::compress_lines(&rows);
    assert_eq!(merged.len(), 2);
    assert_eq!(merged[0], vec!['\u{2580}', '\u{2584}', '\u{2588}', '\u{2580}']);
    assert_eq!(merged[1], vec!['\u{2580}', ' ']);
}

#[test]
fn compress_lines_zips_to_shorter_row() {
    let rows: Vec<Vec<char>> = vec![
        vec!['\u{2588}', '\u{2588}', '\u{2588}'],
        vec!['\u{2588}'],
    ];
    let merged = clipboard_qr::generator::compress_lines(&rows);
    assert_eq!(merged.len(), 1);
    assert_eq!(merged[0], vec!['\u{2588}']);
}

#[test]
fn filename_carries_content_hash() {
    let generator = QRGenerator::new();
    let name = generator.qr_image_filename("Test");
    assert!(name.starts_with("qr_code_"));
    assert!(name.ends_with(".png"));
    assert_eq!(name.len(), "qr_code_".len() + 16 + ".png".len());
    // Deterministic: the same text always lands in the same file.
    assert_eq!(name, generator.qr_image_filename("Test"));
    // And the hash really depends on the text.
    assert_ne!(name, generator.qr_image_filename("Other"));
    // The digits are the FNV-1a fold of the tagged character sequence.
    let mut acc: u64 = 0xcbf2_9ce4_8422_2325 ^ 1;
    acc = acc.wrapping_mul(0x0000_0100_0000_01b3);
    for c in "Test".chars() {
        acc = (acc ^ (c as u64)).wrapping_mul(0x0000_0100_0000_01b3);
    }
    assert_eq!(name, format!("qr_code_{:016x}.png", acc));
}
