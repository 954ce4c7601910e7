use mandelrust::ppm::encode_ppm;

// The two characters that mark the format, and a line feed.
const MARK: [u8; 3] = [0x50, 0x36, 0x0A];

fn header(width: u32, height: u32) -> Vec<u8> {
    let mut bytes = MARK.to_vec();
    bytes.extend_from_slice(format!("{} {}\n255\n", width, height).as_bytes());
    bytes
}

#[test]
fn black_two_by_two_image() {
    let pixels = vec![0u8; 12];
    let file = encode_ppm(2, 2, &pixels);
    let expected: Vec<u8> = vec![
        0x50, 0x36, 0x0A, // the mark
        0x32, 0x20, 0x32, 0x0A, // "2 2"
        0x32, 0x35, 0x35, 0x0A, // "255"
        0, 0, 0, 0, 0, 0, 0, 0, 0, 0, 0, 0,
    ];
    assert_eq!(file, expected);
    assert_eq!(file.len(), 11 + 12);
}

#[test]
fn header_of_a_640_by_480_image() {
    let file = encode_ppm(640, 480, &Vec::new());
    assert_eq!(file, header(640, 480));
    assert_eq!(&file[3..], b"640 480\n255\n");
}

#[test]
fn header_agrees_with_formatting() {
    let sizes: [(u32, u32); 9] = [
        (0, 0),
        (1, 9),
        (10, 99),
        (100, 101),
        (256, 256),
        (1000, 65535),
        (u32::MAX, 1),
        (4000000000, u32::MAX),
        (1000000000, 999999999),
    ];
    for (w, h) in sizes {
        let file = encode_ppm(w, h, &Vec::new());
        assert_eq!(file, header(w, h));
    }
}

#[test]
fn pixels_follow_the_header_unchanged() {
    let pixels: Vec<u8> = vec![255, 0, 10, 1, 2, 3, 48, 10, 32];
    let file = encode_ppm(3, 1, &pixels);
    assert_eq!(&file[..11], &header(3, 1)[..]);
    assert_eq!(&file[11..], &pixels[..]);
}

#[test]
fn pixel_count_is_not_held_against_the_size() {
    let pixels: Vec<u8> = vec![1, 2, 3];
    let file = encode_ppm(640, 640, &pixels);
    let mut expected = header(640, 640);
    expected.extend_from_slice(&pixels);
    assert_eq!(file, expected);
}
