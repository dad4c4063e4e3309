use image_analyzer::cli::classify_image_type;
use image_analyzer::cli::ImageAnalyzer;
use image_analyzer::cli::ImageKind;

#[test]
fn png_selects_the_stub() {
    assert_eq!(classify_image_type("png"), ImageKind::Png);
}

#[test]
fn jpg_selects_the_patch_pipeline() {
    assert_eq!(classify_image_type("jpg"), ImageKind::Jpg);
}

#[test]
fn anything_else_is_unknown() {
    assert_eq!(classify_image_type("unknown"), ImageKind::Unknown);
    assert_eq!(classify_image_type(""), ImageKind::Unknown);
    assert_eq!(classify_image_type("jpeg"), ImageKind::Unknown);
    assert_eq!(classify_image_type("PNG"), ImageKind::Unknown);
}

#[test]
fn png_run_modifies_no_bytes() {
    // The driver patches only when the flag selects the JPEG pipeline, so a
    // png run never touches the buffer, whatever the file holds.
    let args = ImageAnalyzer {
        image: String::from("photo.jpg"),
        image_type: String::from("png"),
        output: None,
        height: Some(1),
        width: Some(2),
    };
    let buffer = vec![0xffu8, 0xc0, 0x00, 0x11, 0x08, 0x00, 0x10, 0x00, 0x20];
    let untouched = buffer.clone();
    if classify_image_type(&args.image_type) == ImageKind::Jpg {
        panic!("the png flag must not select the patch pipeline");
    }
    assert_eq!(buffer, untouched);
}

#[test]
fn unknown_run_reads_no_jpeg_structure() {
    let args = ImageAnalyzer {
        image: String::from("photo.jpg"),
        image_type: String::from("bmp"),
        output: None,
        height: None,
        width: None,
    };
    assert_eq!(classify_image_type(&args.image_type), ImageKind::Unknown);
}
