use base64::Engine;
use konnectctl::api::api_utils::{get_filename_from_path, string_to_base64};
use std::path::Path;

#[test]
fn base64_of_known_texts() {
    assert_eq!(string_to_base64("".to_string()), "");
    assert_eq!(string_to_base64("f".to_string()), "Zg==");
    assert_eq!(string_to_base64("fo".to_string()), "Zm8=");
    assert_eq!(string_to_base64("foo".to_string()), "Zm9v");
    assert_eq!(string_to_base64("foob".to_string()), "Zm9vYg==");
    assert_eq!(string_to_base64("fooba".to_string()), "Zm9vYmE=");
    assert_eq!(string_to_base64("foobar".to_string()), "Zm9vYmFy");
    assert_eq!(string_to_base64("hello world~".to_string()), "aGVsbG8gd29ybGR+");
    assert_eq!(string_to_base64("???".to_string()), "Pz8/");
}

#[test]
fn base64_of_non_ascii_text_is_of_its_utf8_bytes() {
    assert_eq!(string_to_base64("é".to_string()), "w6k=");
    assert_eq!(string_to_base64("名".to_string()), "5ZCN");
}

#[test]
fn base64_decodes_back_to_the_text() {
    let texts = [
        "",
        "a",
        "ab",
        "abc",
        "openapi: 3.0.0\ninfo:\n  title: é\n",
        "\u{0}\u{7f}\u{80}\u{7ff}\u{800}\u{ffff}\u{10000}\u{10ffff}",
    ];
    for text in texts {
        let encoded = string_to_base64(text.to_string());
        assert_eq!(encoded.len() % 4, 0);
        let decoded = base64::engine::general_purpose::STANDARD.decode(&encoded).unwrap();
        assert_eq!(decoded, text.as_bytes());
    }
}

#[test]
fn file_name_is_the_last_component() {
    assert_eq!(get_filename_from_path("./tests/spec/spec-file.yaml"), Some("spec-file.yaml"));
    assert_eq!(get_filename_from_path("spec.yaml"), Some("spec.yaml"));
    assert_eq!(get_filename_from_path("/usr/bin/"), Some("bin"));
    assert_eq!(get_filename_from_path("tmp/foo.txt"), Some("foo.txt"));
    assert_eq!(get_filename_from_path("foo.txt/."), Some("foo.txt"));
    assert_eq!(get_filename_from_path("foo.txt/.//"), Some("foo.txt"));
    assert_eq!(get_filename_from_path("dir/名前.yaml"), Some("名前.yaml"));
    assert_eq!(get_filename_from_path("a/..b"), Some("..b"));
    assert_eq!(get_filename_from_path("a/..."), Some("..."));
}

#[test]
fn some_paths_have_no_file_name() {
    assert_eq!(get_filename_from_path(""), None);
    assert_eq!(get_filename_from_path("/"), None);
    assert_eq!(get_filename_from_path("//"), None);
    assert_eq!(get_filename_from_path("."), None);
    assert_eq!(get_filename_from_path("./"), None);
    assert_eq!(get_filename_from_path("/."), None);
    assert_eq!(get_filename_from_path(".."), None);
    assert_eq!(get_filename_from_path("foo.txt/.."), None);
    assert_eq!(get_filename_from_path("a/../"), None);
    assert_eq!(get_filename_from_path("a/.././"), None);
}

#[test]
fn file_name_agrees_with_the_standard_library() {
    let paths = [
        "", "/", ".", "..", "a", "a/", "a/b", "/a/b/", "a//b", "a/./b", "a/b/.", "a/b/..",
        "./a", "../a", "a/.", "a/./", "./.", "/..", ".a", "a.", "a/.b/", "..a/", "a/b/c.yaml",
        "//a", "a///", "./..", "é/ü",
    ];
    for path in paths {
        let expected = Path::new(path).file_name().and_then(|name| name.to_str());
        assert_eq!(get_filename_from_path(path), expected);
    }
}
