use image_analyzer::paths::derive_output_path;
use image_analyzer::paths::resolve_output_path;

#[test]
fn derives_suffixed_name_with_extension() {
    assert_eq!(derive_output_path("photo.jpg"), "photo_modified.jpg");
}

#[test]
fn derives_suffixed_name_without_extension() {
    assert_eq!(derive_output_path("archive"), "archive_modified");
}

#[test]
fn keeps_the_directory() {
    assert_eq!(derive_output_path("some/dir/photo.jpg"), "some/dir/photo_modified.jpg");
}

#[test]
fn dot_in_directory_is_not_an_extension() {
    assert_eq!(derive_output_path("dir.d/archive"), "dir.d/archive_modified");
}

#[test]
fn hidden_file_has_no_extension() {
    assert_eq!(derive_output_path(".hidden"), ".hidden_modified");
}

#[test]
fn only_the_last_dot_starts_the_extension() {
    assert_eq!(derive_output_path("a.b.c"), "a.b_modified.c");
}

#[test]
fn explicit_output_always_overrides_derivation() {
    let explicit = Some(String::from("out.jpg"));
    assert_eq!(resolve_output_path("photo.jpg", &explicit), "out.jpg");
    assert_eq!(resolve_output_path("archive", &explicit), "out.jpg");
}

#[test]
fn no_explicit_output_falls_back_to_derivation() {
    assert_eq!(resolve_output_path("photo.jpg", &None), "photo_modified.jpg");
}
