use caesium_clt::paths::{
    format_extension, join_path, parent_of, resolve_output_path, with_extension,
};
use caesium_clt::options::OutputFormat;

#[test]
fn resolver_mirrors_structure_under_output_root() {
    let r = resolve_output_path("/output", "/base/folder/test.jpg", "/base", true, "_s");
    assert_eq!(r, Some(String::from("/output/folder/test_s.jpg")));
}

#[test]
fn resolver_flattens_without_structure() {
    let r = resolve_output_path("/output", "/base/folder/test.jpg", "/base", false, "_s");
    assert_eq!(r, Some(String::from("/output/test_s.jpg")));
}

#[test]
fn resolver_keeps_extensionless_names() {
    let r = resolve_output_path("/output", "/base/folder/test", "/base", false, "_s");
    assert_eq!(r, Some(String::from("/output/test_s")));
}

#[test]
fn resolver_ignores_base_without_structure() {
    // The base prefix only matters when the structure is preserved.
    let r = resolve_output_path("/output", "/different_base/folder/test.jpg", "/base", false, "_s");
    assert_eq!(r, Some(String::from("/output/test_s.jpg")));
}

#[test]
fn resolver_accepts_the_root_as_base() {
    // The root is a prefix of every absolute path.
    let r = resolve_output_path("/output", "/folder/test.jpg", "/", true, "_s");
    assert_eq!(r, Some(String::from("/output/folder/test_s.jpg")));
    let r = resolve_output_path("/output", "/test.jpg", "/", true, "_s");
    assert_eq!(r, Some(String::from("/output/test_s.jpg")));
}

#[test]
fn resolver_accepts_base_with_trailing_separator() {
    let r = resolve_output_path("/output", "/base/folder/test.jpg", "/base/", true, "_s");
    assert_eq!(r, Some(String::from("/output/folder/test_s.jpg")));
}

#[test]
fn resolver_rejects_inputs_outside_base_with_structure() {
    let r = resolve_output_path("/output", "/different_base/folder/test.jpg", "/base", true, "_s");
    assert_eq!(r, None);
}

#[test]
fn resolver_rejects_separator_free_input() {
    let r = resolve_output_path("/output", "test.jpg", "/base", false, "");
    assert_eq!(r, None);
}

#[test]
fn resolver_handles_input_directly_under_base() {
    let r = resolve_output_path("/output", "/base/test.jpg", "/base", true, "");
    assert_eq!(r, Some(String::from("/output/test.jpg")));
}

#[test]
fn resolver_keeps_hidden_file_names_whole() {
    // A leading dot is part of the stem, not an extension.
    let r = resolve_output_path("/output", "/base/.hidden", "/base", false, "_s");
    assert_eq!(r, Some(String::from("/output/.hidden_s")));
}

#[test]
fn parent_of_walks_one_level_up() {
    assert_eq!(parent_of("/base/folder/test.jpg"), Some(String::from("/base/folder")));
    assert_eq!(parent_of("/test.jpg"), Some(String::from("/")));
    assert_eq!(parent_of("test.jpg"), None);
}

#[test]
fn join_path_inserts_one_separator() {
    assert_eq!(join_path("/output", "a.jpg"), "/output/a.jpg");
    assert_eq!(join_path("/output/", "a.jpg"), "/output/a.jpg");
    assert_eq!(join_path("", "a.jpg"), "a.jpg");
}

#[test]
fn with_extension_replaces_the_extension() {
    assert_eq!(with_extension("/out/photo.jpg", "webp"), "/out/photo.webp");
    assert_eq!(with_extension("/out/archive", "png"), "/out/archive.png");
}

#[test]
fn format_extensions_match_their_formats() {
    assert_eq!(format_extension(OutputFormat::Jpeg), "jpg");
    assert_eq!(format_extension(OutputFormat::Png), "png");
    assert_eq!(format_extension(OutputFormat::Webp), "webp");
    assert_eq!(format_extension(OutputFormat::Tiff), "tiff");
    assert_eq!(format_extension(OutputFormat::Original), "");
}
