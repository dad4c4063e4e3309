use image_analyzer::find_sequence;
use image_analyzer::marker::sof0_marker;

#[test]
fn finds_single_occurrence() {
    let haystack = [0x12u8, 0x34, 0xff, 0xc0, 0x55, 0x66];
    let needle = [0xffu8, 0xc0];
    assert_eq!(find_sequence(&haystack, &needle), Some(2));
}

#[test]
fn returns_none_without_occurrence() {
    let haystack = [0x12u8, 0x34, 0xff, 0xc1, 0xc0, 0x66];
    let needle = [0xffu8, 0xc0];
    assert_eq!(find_sequence(&haystack, &needle), None);
}

#[test]
fn returns_first_of_multiple() {
    let haystack = [0xffu8, 0x00, 0xff, 0xc0, 0x00, 0xff, 0xc0, 0x01];
    let needle = [0xffu8, 0xc0];
    assert_eq!(find_sequence(&haystack, &needle), Some(2));
}

#[test]
fn finds_occurrence_at_start_and_end() {
    let needle = [0xffu8, 0xc0];
    assert_eq!(find_sequence(&[0xff, 0xc0, 0x00], &needle), Some(0));
    assert_eq!(find_sequence(&[0x00, 0x01, 0xff, 0xc0], &needle), Some(2));
}

#[test]
fn needle_longer_than_haystack() {
    let needle = [0xffu8, 0xc0];
    assert_eq!(find_sequence(&[0xff], &needle), None);
    assert_eq!(find_sequence(&[], &needle), None);
}

#[test]
fn sof0_marker_decodes_to_marker_bytes() {
    // hex::decode turns the text "FFC0" into the two marker bytes; the raw
    // ASCII input would be [0x46, 0x46, 0x43, 0x30].
    assert_eq!(sof0_marker(), vec![0xffu8, 0xc0]);
}
