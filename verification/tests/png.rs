use optimization_lab::png::encode_png;

const PNG_SIGNATURE: [u8; 8] = [137, 80, 78, 71, 13, 10, 26, 10];

#[test]
fn encode_png_writes_a_png_file() {
    let pixels: Vec<u8> = vec![255, 0, 0, 0, 255, 0];
    let png = encode_png(&pixels, 2, 1);
    assert_eq!(&png[..8], &PNG_SIGNATURE);
    assert_ne!(png, pixels);
    assert!(png.ends_with(&[0x49, 0x45, 0x4e, 0x44, 0xae, 0x42, 0x60, 0x82]));
}

#[test]
fn encode_png_is_deterministic_and_depends_on_pixels() {
    let white = vec![255u8; 4 * 3 * 3];
    let black = vec![0u8; 4 * 3 * 3];
    assert_eq!(encode_png(&white, 4, 3), encode_png(&white, 4, 3));
    assert_ne!(encode_png(&white, 4, 3), encode_png(&black, 4, 3));
}

#[test]
fn encode_png_of_a_plot_sized_buffer() {
    let pixels = vec![200u8; 800 * 600 * 3];
    let png = encode_png(&pixels, 800, 600);
    assert_eq!(&png[..8], &PNG_SIGNATURE);
    assert!(png.len() < pixels.len());
}
