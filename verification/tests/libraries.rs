use rye_bootstrap::error::ErrorKind;
use rye_bootstrap::libraries::{missing_shared_libraries, validate_shared_libraries};

fn names(list: &[&str]) -> Vec<String> {
    list.iter().map(|s| s.to_string()).collect()
}

#[test]
fn healthy_binary_misses_nothing() {
    let report = "\tlinux-vdso.so.1 (0x00007ffc8a9f2000)\n\
                  \tlibpthread.so.0 => /lib/x86_64-linux-gnu/libpthread.so.0 (0x00007f2a1c000000)\n\
                  \tlibc.so.6 => /lib/x86_64-linux-gnu/libc.so.6 (0x00007f2a1be00000)\n\
                  \t/lib64/ld-linux-x86-64.so.2 (0x00007f2a1c400000)\n";
    assert_eq!(missing_shared_libraries(report), Vec::<String>::new());
    assert_eq!(validate_shared_libraries(report), Ok(()));
    assert_eq!(validate_shared_libraries(""), Ok(()));
    assert_eq!(validate_shared_libraries("\n\n\n"), Ok(()));
    assert_eq!(validate_shared_libraries("\tstatically linked\n"), Ok(()));
}

#[test]
fn missing_libraries_are_sorted_and_listed_once() {
    let report = "\tlibz.so.1 => not found\n\
                  \tlibc.so.6 => /lib/libc.so.6 (0x1)\n\
                  \tlibcrypt.so.1 => not found\n\
                  \tlibz.so.1 => not found\n\
                  \tlibbz2.so.1.0 => not found\n";
    assert_eq!(
        missing_shared_libraries(report),
        names(&["libbz2.so.1.0", "libcrypt.so.1", "libz.so.1"])
    );
    assert_eq!(
        validate_shared_libraries(report),
        Err(ErrorKind::MissingSharedLibraries {
            libs: names(&["libbz2.so.1.0", "libcrypt.so.1", "libz.so.1"]),
        })
    );
}

#[test]
fn one_missing_library_is_enough() {
    assert_eq!(
        validate_shared_libraries("libcrypt.so.1 => not found"),
        Err(ErrorKind::MissingSharedLibraries { libs: names(&["libcrypt.so.1"]) })
    );
}

#[test]
fn lines_are_trimmed_at_both_ends() {
    assert_eq!(missing_shared_libraries("  liba.so => not found  "), names(&["liba.so"]));
    assert_eq!(missing_shared_libraries("\t\tliba.so => not found\r\n"), names(&["liba.so"]));
    assert_eq!(missing_shared_libraries("\r\n \x0b\x0cliba.so => not found\x0c\r\n\n"), names(&["liba.so"]));
    assert_eq!(missing_shared_libraries("liba.so  => not found"), names(&["liba.so "]));
}

#[test]
fn unicode_white_space_is_trimmed_too() {
    assert_eq!(missing_shared_libraries("a => not found\u{a0}"), names(&["a"]));
    assert_eq!(
        validate_shared_libraries("a => not found\u{a0}"),
        Err(ErrorKind::MissingSharedLibraries { libs: names(&["a"]) })
    );
    for blank in [
        '\u{9}', '\u{b}', '\u{c}', '\u{d}', ' ', '\u{85}', '\u{a0}', '\u{1680}', '\u{2000}',
        '\u{2005}', '\u{200a}', '\u{2028}', '\u{2029}', '\u{202f}', '\u{205f}', '\u{3000}',
    ] {
        assert!(blank.is_whitespace());
        let line = format!("{}{}libx.so => not found{}", blank, blank, blank);
        assert_eq!(missing_shared_libraries(&line), names(&["libx.so"]), "{:?}", blank);
        let inside = format!("lib{}x.so => not found", blank);
        assert_eq!(missing_shared_libraries(&inside), vec![format!("lib{}x.so", blank)]);
    }
}

#[test]
fn trimming_agrees_with_the_standard_library() {
    for code in 0..=0x3100u32 {
        if let Some(c) = char::from_u32(code) {
            if c == '\n' {
                continue;
            }
            let line = format!("{}n => not found{}", c, c);
            let original = line.trim().split_once(" => ");
            let expected = match original {
                Some((name, "not found")) => vec![name.to_string()],
                _ => vec![],
            };
            assert_eq!(missing_shared_libraries(&line), expected, "{:?}", c);
        }
    }
}

#[test]
fn what_only_looks_like_white_space_is_kept() {
    for other in ['\u{200b}', '\u{feff}', '\u{180e}', '\u{1c}', '\u{1f}', '\u{2060}'] {
        assert!(!other.is_whitespace());
        let line = format!("a => not found{}", other);
        assert_eq!(missing_shared_libraries(&line), Vec::<String>::new(), "{:?}", other);
    }
}

#[test]
fn only_the_exact_form_counts() {
    for line in [
        "liba.so => not found (really)",
        "liba.so => not  found",
        "liba.so => Not found",
        "liba.so =>not found",
        "liba.so=> not found",
        "liba.so -> not found",
        "liba.so => not foun",
        "=> not found",
        "not found",
        "liba.so => /lib/liba.so => not found",
        "liba.so => not found => not found",
        "liba.so => ",
        " => ",
    ] {
        assert_eq!(missing_shared_libraries(line), Vec::<String>::new(), "{:?}", line);
    }
}

#[test]
fn the_first_arrow_splits_the_line() {
    assert_eq!(missing_shared_libraries("a = > b => not found"), names(&["a = > b"]));
    assert_eq!(missing_shared_libraries("a=> => not found"), names(&["a=>"]));
    assert_eq!(missing_shared_libraries("a =>=> not found"), Vec::<String>::new());
    assert_eq!(missing_shared_libraries(" => not found"), Vec::<String>::new());
}

#[test]
fn names_are_in_code_point_order() {
    let report = "b => not found\nB => not found\na => not found\nab => not found\n\
                  A => not found\n_ => not found\n1 => not found\n\u{e9} => not found\n\
                  aa => not found\nz => not found\n";
    let listed = missing_shared_libraries(report);
    let mut expected = names(&["b", "B", "a", "ab", "A", "_", "1", "\u{e9}", "aa", "z"]);
    expected.sort();
    assert_eq!(listed, expected);
    assert_eq!(listed, names(&["1", "A", "B", "_", "a", "aa", "ab", "b", "z", "\u{e9}"]));
}

#[test]
fn last_line_needs_no_line_feed() {
    assert_eq!(
        missing_shared_libraries("libc.so.6 => /lib/libc.so.6\nlibx.so => not found"),
        names(&["libx.so"])
    );
    assert_eq!(missing_shared_libraries("libx.so => not found\n"), names(&["libx.so"]));
}

#[test]
fn a_line_feed_inside_the_form_breaks_it() {
    assert_eq!(missing_shared_libraries("libx.so =>\n not found"), Vec::<String>::new());
    assert_eq!(missing_shared_libraries("libx.so => not\nfound"), Vec::<String>::new());
}

#[test]
fn names_with_wide_characters_are_kept_whole() {
    assert_eq!(
        missing_shared_libraries("\tlib\u{1f40d}\u{e4}.so => not found\n"),
        names(&["lib\u{1f40d}\u{e4}.so"])
    );
}
