use video_snapshot::error_image::create_error_image;

#[test]
fn error_image_is_a_png() {
    let bytes = create_error_image("source unreachable");
    assert!(bytes.len() > 8);
    assert_eq!(&bytes[..8], &[0x89, b'P', b'N', b'G', b'\r', b'\n', 0x1a, b'\n']);
}

#[test]
fn error_image_decodes_to_the_pale_card() {
    let bytes = create_error_image("whatever");
    let img = image::load_from_memory(&bytes).unwrap().to_rgb8();
    assert_eq!(img.width(), 400);
    assert_eq!(img.height(), 200);
    assert_eq!(img.get_pixel(0, 0).0, [255, 200, 200]);
    assert_eq!(img.get_pixel(399, 199).0, [255, 200, 200]);
    assert_eq!(img.get_pixel(200, 100).0, [255, 200, 200]);
}

#[test]
fn error_image_ignores_the_message_text() {
    let a = create_error_image("first failure");
    let b = create_error_image("second failure");
    assert_eq!(a, b);
}
