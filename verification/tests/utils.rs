use tech_writer::utils::{
    contains_null_byte, decode_latin1, has_binary_extension, is_binary_file, list_files,
    read_file, read_prompt_file, results_file_name, WalkEntry, SNIFF_LENGTH,
};

fn entry(path: &str) -> WalkEntry {
    WalkEntry {
        relative_path: Some(path.to_string()),
        is_directory: false,
        ignored: false,
        symlink: false,
    }
}

#[test]
fn executable_files_are_binary() {
    assert!(is_binary_file(true, None, b"#!/bin/sh\n"));
    assert!(is_binary_file(true, Some("txt"), b""));
}

#[test]
fn binary_extensions_are_binary_in_any_case() {
    for extension in [
        "exe", "dll", "so", "dylib", "bin", "obj", "o", "a", "lib", "png", "jpg", "jpeg", "gif",
        "bmp", "ico", "tif", "tiff", "webp", "mp3", "mp4", "avi", "mov", "wmv", "flv", "zip",
        "tar", "gz", "7z", "rar", "jar", "war", "class", "pyc", "pyd", "pyo",
    ] {
        assert!(has_binary_extension(extension));
        assert!(is_binary_file(false, Some(extension), b"text"));
        assert!(is_binary_file(false, Some(&extension.to_uppercase()), b"text"));
    }
    assert!(is_binary_file(false, Some("JpEg"), b""));
    assert!(!has_binary_extension("PNG"));
}

#[test]
fn text_files_are_not_binary() {
    assert!(!is_binary_file(false, Some("rs"), b"fn main() {}\n"));
    assert!(!is_binary_file(false, None, b""));
    assert!(!is_binary_file(false, Some("md"), "caf\u{e9}".as_bytes()));
    assert!(!has_binary_extension("exes"));
    assert!(!has_binary_extension(""));
}

#[test]
fn null_byte_among_the_first_bytes_is_binary() {
    assert!(is_binary_file(false, Some("txt"), b"ab\0cd"));
    assert!(contains_null_byte(&[0]));
    let mut head = vec![b'a'; 600];
    assert!(!contains_null_byte(&head));
    head[511] = 0;
    assert!(contains_null_byte(&head));
    head[511] = b'a';
    head[512] = 0;
    assert!(!contains_null_byte(&head));
    assert!(!is_binary_file(false, None, &head));
    assert_eq!(SNIFF_LENGTH, 512);
}

#[test]
fn listing_leaves_out_symlinks() {
    let entries = vec![
        entry("src/main.rs"),
        WalkEntry {
            relative_path: Some("outside".to_string()),
            is_directory: false,
            ignored: false,
            symlink: true,
        },
        entry("README.md"),
    ];
    assert_eq!(list_files(&entries), vec!["src/main.rs".to_string(), "README.md".to_string()]);
}

#[test]
fn listing_leaves_out_directories_ignored_and_foreign_entries() {
    let entries = vec![
        WalkEntry { relative_path: Some("".to_string()), is_directory: true, ignored: false, symlink: false },
        WalkEntry { relative_path: Some("target/x".to_string()), is_directory: false, ignored: true, symlink: false },
        WalkEntry { relative_path: None, is_directory: false, ignored: false, symlink: false },
        entry("a"),
        WalkEntry { relative_path: Some("link".to_string()), is_directory: true, ignored: true, symlink: true },
    ];
    assert_eq!(list_files(&entries), vec!["a".to_string()]);
    assert_eq!(list_files(&Vec::new()), Vec::<String>::new());
}

#[test]
fn valid_utf8_is_read_as_utf8() {
    assert_eq!(read_file("caf\u{e9} \u{1f980}".as_bytes()), "caf\u{e9} \u{1f980}");
    assert_eq!(read_file(b""), "");
}

#[test]
fn invalid_utf8_is_read_as_latin1() {
    assert_eq!(read_file(&[b'c', b'a', b'f', 0xE9]), "caf\u{e9}");
    assert_eq!(read_file(&[0xFF, 0x00, 0x41]), "\u{ff}\u{0}A");
    assert_eq!(decode_latin1(&[0xC3, 0xA9]), "\u{c3}\u{a9}");
    assert_eq!(read_file(&[0xC3, 0xA9]), "\u{e9}");
}

#[test]
fn prompt_is_trimmed() {
    assert_eq!(read_prompt_file("  Describe the build.\n\n"), "Describe the build.");
    assert_eq!(read_prompt_file("\u{3000}\ta b\u{a0}\r\n"), "a b");
    assert_eq!(read_prompt_file("\n \t"), "");
    assert_eq!(read_prompt_file("x"), "x");
    assert_eq!(read_prompt_file("\u{200b}x\u{200b}"), "\u{200b}x\u{200b}");
}

#[test]
fn results_file_is_named_after_time_variant_and_model() {
    assert_eq!(
        results_file_name("2024-05-17T0932", "reflexion", "gpt-4o-mini"),
        "2024-05-17T0932-reflexion-gpt-4o-mini.md"
    );
    assert_eq!(results_file_name("", "", ""), "--.md");
}
