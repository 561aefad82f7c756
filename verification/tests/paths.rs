//! Tests of paths, numbers, texts and their order.

use worktree_manager::bytes::find_byte;
use worktree_manager::bytes::split_bytes;
use worktree_manager::numeral::parse_i64;
use worktree_manager::numeral::parse_unsigned;
use worktree_manager::numeral::print_hex;
use worktree_manager::numeral::print_hex_digits;
use worktree_manager::numeral::print_i64;
use worktree_manager::numeral::NumberError;
use worktree_manager::order::sort_indices;
use worktree_manager::order::text_at_most;
use worktree_manager::paths::file_name;
use worktree_manager::paths::is_absolute;
use worktree_manager::paths::join_path;
use worktree_manager::paths::parent;
use worktree_manager::paths::same_path;
use worktree_manager::resolution::PathSearch;
use worktree_manager::text::lines;
use worktree_manager::text::split;
use worktree_manager::text::trim;
use worktree_manager::text::trim_end;
use worktree_manager::text::words;

#[test]
fn paths_follow_the_standard_library() {
    let cases = [
        "/", "/a", "/a/b", "/a/b/", "a", "a/b", ".", "..", "/..", "/a/..", "/a/.", "./a", "a//b",
        "", "/a/b/../c", "//a",
    ];
    for path in cases {
        let wanted = std::path::Path::new(path);
        assert_eq!(is_absolute(path), wanted.is_absolute(), "{path:?}");
        assert_eq!(
            file_name(path).as_deref(),
            wanted.file_name().and_then(|name| name.to_str()),
            "{path:?}"
        );
        assert_eq!(
            parent(path).as_deref(),
            wanted.parent().and_then(|parent| parent.to_str()),
            "{path:?}"
        );
        for child in cases {
            assert_eq!(
                join_path(path, child),
                wanted.join(child).to_str().expect("text"),
                "{path:?} {child:?}"
            );
            assert_eq!(
                same_path(path, child),
                wanted == std::path::Path::new(child),
                "{path:?} {child:?}"
            );
        }
    }
}

#[test]
fn a_missing_path_is_resolved_from_its_nearest_directory() {
    let search = PathSearch::new("/link/a/b");
    let search = search.outward().expect("one step out");
    let search = search.outward().expect("two steps out");
    assert_eq!(search.current, "/link");
    assert_eq!(search.resolved("/real"), "/real/a/b");
    let search = search.outward().expect("the root");
    assert_eq!(search.current, "/");
    assert_eq!(search.outward(), None);
    assert_eq!(PathSearch::new("/x").resolved("/y"), "/y");
}

#[test]
fn numbers_are_printed_and_read_back() {
    for number in [0, 1, -1, 9, 10, -10, 1234567890, i64::MAX, i64::MIN] {
        let text = print_i64(number);
        assert_eq!(text, format!("{number}"));
        assert_eq!(parse_i64(&text), Ok(number));
    }
    for number in [0u64, 1, 15, 16, 255, 0xcbf29ce484222325, u64::MAX] {
        assert_eq!(print_hex(number), format!("{number:x}"));
        assert_eq!(print_hex_digits(number, 16), format!("{number:016x}"));
    }
    assert_eq!(parse_i64("+5"), Ok(5));
    for text in ["", "-", "+", "x", "1x", "9223372036854775808", "-9223372036854775809"] {
        let wanted = text.parse::<i64>().expect_err("no number");
        assert_eq!(
            parse_i64(text).expect_err("no number").message(),
            format!("{wanted}"),
            "{text:?}"
        );
    }
    assert_eq!(parse_unsigned("256", 255), Err(NumberError::TooLarge));
    assert_eq!(parse_unsigned("255", 255), Ok(255));
    assert_eq!(parse_unsigned("-1", 255), Err(NumberError::InvalidDigit));
}

#[test]
fn texts_are_ordered_by_their_characters() {
    let keys = ["b", "a", "", "ab", "a", "\u{e9}", "\u{10000}", "\u{ffff}"];
    for left in keys {
        for right in keys {
            assert_eq!(text_at_most(left, right), left <= right, "{left:?} {right:?}");
        }
    }
    let owned: Vec<String> = keys.iter().map(|key| key.to_string()).collect();
    let sorted = sort_indices(&owned);
    assert_eq!(sorted, vec![2, 1, 4, 3, 0, 5, 7, 6]);
}

#[test]
fn texts_are_cut_as_the_standard_library_does() {
    for text in ["", " ", "a", " a b ", "a\nb\r\nc", "\n", "a\n", "a\r", "\u{2003}x\u{85}", "a\t\tb"] {
        assert_eq!(trim(text), text.trim());
        assert_eq!(trim_end(text), text.trim_end());
        assert_eq!(lines(text), text.lines().collect::<Vec<_>>());
        assert_eq!(words(text), text.split_whitespace().collect::<Vec<_>>());
        assert_eq!(split(text, ' '), text.split(' ').collect::<Vec<_>>());
    }
}

#[test]
fn bytes_are_split_at_separators() {
    assert_eq!(split_bytes(b"a\0\0b", 0), vec![b"a".to_vec(), Vec::new(), b"b".to_vec()]);
    assert_eq!(split_bytes(b"", 0), vec![Vec::<u8>::new()]);
    assert_eq!(find_byte(b"abc", 99), Some(2));
    assert_eq!(find_byte(b"abc", 100), None);
}
