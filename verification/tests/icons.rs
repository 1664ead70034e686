use termtabs::tab::directory::{get_file_icon, Entry};

fn extension(name: &str) -> Option<String> {
    let entry = Entry { name: name.to_string(), is_dir: false };
    entry.extension().map(|ext| ext.to_string())
}

#[test]
fn every_directory_has_the_folder_glyph() {
    assert_eq!(get_file_icon(true, None), "\u{e5ff}");
    assert_eq!(get_file_icon(true, Some("rs")), "\u{e5ff}");
    assert_eq!(get_file_icon(true, Some("nothing")), "\u{e5ff}");
}

#[test]
fn missing_and_unknown_extensions_have_the_default_glyph() {
    assert_eq!(get_file_icon(false, None), "\u{ea7b}");
    assert_eq!(get_file_icon(false, Some("")), "\u{ea7b}");
    assert_eq!(get_file_icon(false, Some("xyz")), "\u{ea7b}");
    assert_eq!(get_file_icon(false, Some("RS")), "\u{ea7b}");
    assert_eq!(get_file_icon(false, Some("rs ")), "\u{ea7b}");
}

#[test]
fn every_known_extension_has_its_glyph() {
    let table: [(&str, &str); 41] = [
        ("rs", "\u{e7a8}"),
        ("toml", "\u{f013}"),
        ("json", "\u{e60b}"),
        ("yaml", "\u{e6a8}"),
        ("yml", "\u{e6a8}"),
        ("md", "\u{eda4}"),
        ("txt", "\u{e64e}"),
        ("sh", "\u{e691}"),
        ("zsh", "\u{e691}"),
        ("bash", "\u{e691}"),
        ("py", "\u{e73c}"),
        ("c", "\u{e61e}"),
        ("cpp", "\u{e61d}"),
        ("h", "\u{e61e}"),
        ("hpp", "\u{e61d}"),
        ("go", "\u{e627}"),
        ("java", "\u{edaf}"),
        ("js", "\u{e60c}"),
        ("ts", "\u{e628}"),
        ("html", "\u{e60e}"),
        ("css", "\u{e614}"),
        ("scss", "\u{e614}"),
        ("png", "\u{f02e9}"),
        ("jpg", "\u{f02e9}"),
        ("jpeg", "\u{f02e9}"),
        ("gif", "\u{f02e9}"),
        ("svg", "\u{f02e9}"),
        ("mp4", "\u{f0567}"),
        ("avi", "\u{f0567}"),
        ("mkv", "\u{f0567}"),
        ("mov", "\u{f0567}"),
        ("mp3", "\u{f001}"),
        ("flac", "\u{f001}"),
        ("wav", "\u{f001}"),
        ("ogg", "\u{f001}"),
        ("zip", "\u{e6aa}"),
        ("tar", "\u{e6aa}"),
        ("gz", "\u{e6aa}"),
        ("7z", "\u{e6aa}"),
        ("rar", "\u{e6aa}"),
        ("pdf", "\u{eaeb}"),
    ];
    for (ext, glyph) in table.iter() {
        assert_eq!(get_file_icon(false, Some(ext)), *glyph);
    }
}

#[test]
fn lookup_gives_exactly_one_glyph() {
    for is_dir in [false, true].iter() {
        for ext in [None, Some(""), Some("rs"), Some("png"), Some("unknown")].iter() {
            let first = get_file_icon(*is_dir, *ext);
            let second = get_file_icon(*is_dir, *ext);
            assert_eq!(first.chars().count(), 1);
            assert_eq!(first, second);
        }
    }
}

#[test]
fn extension_is_what_follows_the_last_dot() {
    assert_eq!(extension("a.rs"), Some("rs".to_string()));
    assert_eq!(extension("archive.tar.gz"), Some("gz".to_string()));
    assert_eq!(extension("a."), Some("".to_string()));
    assert_eq!(extension("..x"), Some("x".to_string()));
    assert_eq!(extension("\u{e9}t\u{e9}.\u{e9}"), Some("\u{e9}".to_string()));
}

#[test]
fn some_names_have_no_extension() {
    assert_eq!(extension("Makefile"), None);
    assert_eq!(extension(""), None);
    assert_eq!(extension(".bashrc"), None);
    assert_eq!(extension("."), None);
    assert_eq!(extension(".."), None);
}

#[test]
fn extension_agrees_with_the_standard_library() {
    let names = [
        "a.rs", "b.toml", "sub", ".hidden", ".hidden.txt", "x.", "...", "..a", "a..b", "noext",
        "UPPER.RS", "with space.md", "\u{4e2d}\u{6587}.txt",
    ];
    for name in names.iter() {
        let expected = std::path::Path::new(name)
            .extension()
            .map(|ext| ext.to_str().unwrap().to_string());
        assert_eq!(extension(name), expected, "{}", name);
    }
}
