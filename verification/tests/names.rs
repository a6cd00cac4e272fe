use pairlane::names::{file_name, is_white_space_char, sanitize_file_name};

#[test]
fn sanitize_strips_path_components() {
    assert_eq!(sanitize_file_name("../../etc/passwd"), "passwd");
}

#[test]
fn sanitize_replaces_empty_name() {
    assert_eq!(sanitize_file_name(""), "file");
}

#[test]
fn sanitize_replaces_current_directory() {
    assert_eq!(sanitize_file_name("."), "file");
}

#[test]
fn sanitize_replaces_parent_directory() {
    assert_eq!(sanitize_file_name(".."), "file");
}

#[test]
fn sanitize_trims_white_space() {
    assert_eq!(sanitize_file_name("  report.pdf  "), "report.pdf");
}

#[test]
fn sanitize_agrees_with_std_path_on_samples() {
    let samples = [
        "a", "a/b", "a/b/", "a/b/.", "a/b/./", "a//b", "/", "//", "/a", "a/..", "a/../", "../a",
        "./a", "./.", "/.", "..a", "a..", "...", " . ", " .. ", "a/ b ", "a/\t", "\u{3000}x\u{3000}",
        "dir/na me.txt", "x/./y/./", "....", ". /", "./ ", "a/.b", "a/b.", "é/ü.txt", "a\\b",
    ];
    for sample in samples {
        let candidate = std::path::Path::new(sample)
            .file_name()
            .and_then(|n| n.to_str())
            .unwrap_or("file");
        let trimmed = candidate.trim();
        let expected = if trimmed.is_empty() || trimmed == "." || trimmed == ".." {
            "file".to_string()
        } else {
            trimmed.to_string()
        };
        assert_eq!(sanitize_file_name(sample), expected, "for {:?}", sample);
    }
}

#[test]
fn file_name_agrees_with_std_path_on_samples() {
    let samples = ["", ".", "..", "/", "a", "a/", "a/.", "a/..", "/usr/bin/", "tmp/foo.txt", "foo.txt/.//"];
    for sample in samples {
        let expected = std::path::Path::new(sample)
            .file_name()
            .and_then(|n| n.to_str())
            .map(|n| n.to_string());
        assert_eq!(file_name(sample), expected, "for {:?}", sample);
    }
}

#[test]
fn white_space_is_the_unicode_property() {
    let mut code: u32 = 0;
    while code <= 0x10FFFF {
        if let Some(c) = char::from_u32(code) {
            assert_eq!(is_white_space_char(c), c.is_whitespace(), "U+{:04X}", code);
        }
        code += 1;
    }
}

fn reference_sanitize(name: &str) -> String {
    let candidate = std::path::Path::new(name)
        .file_name()
        .and_then(|n| n.to_str())
        .unwrap_or("file");
    let trimmed = candidate.trim();
    if trimmed.is_empty() || trimmed == "." || trimmed == ".." {
        "file".to_string()
    } else {
        trimmed.to_string()
    }
}

#[test]
fn sanitize_agrees_with_std_path_on_all_short_names() {
    let alphabet = ['/', '.', 'a', ' ', '\u{2003}'];
    let mut names: Vec<String> = vec![String::new()];
    let mut length = 0;
    while length < 6 {
        let mut longer = Vec::new();
        for name in &names {
            if name.chars().count() == length {
                for c in alphabet {
                    let mut next = name.clone();
                    next.push(c);
                    longer.push(next);
                }
            }
        }
        names.extend(longer);
        length += 1;
    }
    assert_eq!(names.len(), 1 + 5 + 25 + 125 + 625 + 3125 + 15625);
    for name in &names {
        assert_eq!(sanitize_file_name(name), reference_sanitize(name), "for {:?}", name);
        let expected = std::path::Path::new(name)
            .file_name()
            .and_then(|n| n.to_str())
            .map(|n| n.to_string());
        assert_eq!(file_name(name), expected, "for {:?}", name);
    }
}
