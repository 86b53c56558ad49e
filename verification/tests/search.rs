use elf_parser::search::{contains, find, matches_at};

#[test]
fn find_gives_the_first_offset() {
    assert_eq!(find(b"abcabc", b"bc"), Some(1));
    assert_eq!(find(b"abcabc", b"abc"), Some(0));
    assert_eq!(find(b"abcabc", b"cab"), Some(2));
    assert_eq!(find(b"aaaa", b"aa"), Some(0));
}

#[test]
fn find_reaches_the_end() {
    assert_eq!(find(b"hello world", b"world"), Some(6));
    assert_eq!(find(b"hello world", b"d"), Some(10));
    assert_eq!(find(b"hello world", b"hello world"), Some(0));
}

#[test]
fn find_misses_what_is_not_there() {
    assert_eq!(find(b"hello", b"world"), None);
    assert_eq!(find(b"hello", b"hello!"), None);
    assert_eq!(find(b"", b"a"), None);
    assert_eq!(find(b"abab", b"aba b"), None);
    assert_eq!(find(b"aab", b"abb"), None);
}

#[test]
fn find_of_nothing_is_at_zero() {
    assert_eq!(find(b"abc", b""), Some(0));
    assert_eq!(find(b"", b""), Some(0));
}

#[test]
fn find_restarts_after_a_partial_match() {
    assert_eq!(find(b"aaab", b"aab"), Some(1));
    assert_eq!(find(b"..strtab", b".strtab"), Some(1));
}

#[test]
fn find_agrees_with_std_str_find() {
    let hays = ["", "a", "\0.symtab\0.strtab\0.shstrtab\0", ".shstrtab.strtab", "xx.got.pltxx", "abcabcabd"];
    let needles = ["", "a", ".strtab", ".got.plt", "abd", "tab", "\0", "abcabcabdx"];
    for h in hays {
        for n in needles {
            assert_eq!(find(h.as_bytes(), n.as_bytes()), h.find(n), "{:?} in {:?}", n, h);
            assert_eq!(contains(h.as_bytes(), n.as_bytes()), h.contains(n));
        }
    }
}

#[test]
fn shstrtab_name_does_not_hold_strtab_name() {
    assert_eq!(find(b".shstrtab", b".strtab"), None);
    assert_eq!(find(b"\0.shstrtab\0.strtab\0", b".strtab"), Some(11));
}

#[test]
fn contains_says_whether_it_is_there() {
    assert!(contains(b"__libc_start_main\0__stack_chk_fail\0", b"__stack_chk_fail"));
    assert!(!contains(b"__libc_start_main\0", b"__stack_chk_fail"));
    assert!(contains(b"abc", b""));
    assert!(!contains(b"", b"x"));
}

#[test]
fn search_works_on_bytes_that_are_no_text() {
    let hay = [0xffu8, 0xfe, 0x00, 0x80, 0xff, 0xfe, 0x01];
    assert_eq!(find(&hay, &[0xff, 0xfe, 0x01]), Some(4));
    assert_eq!(find(&hay, &[0x00, 0x80]), Some(2));
    assert!(!contains(&hay, &[0xfe, 0xff]));
}

#[test]
fn matches_at_compares_in_place() {
    assert!(matches_at(b"abcdef", b"cd", 2));
    assert!(!matches_at(b"abcdef", b"cd", 1));
    assert!(matches_at(b"abcdef", b"", 6));
    assert!(matches_at(b"abcdef", b"abcdef", 0));
    assert!(!matches_at(b"abcdef", b"abcdeg", 0));
}

#[test]
fn matches_at_past_the_end_is_no_match() {
    assert!(!matches_at(b"abc", b"bcd", 1));
    assert!(!matches_at(b"abc", b"c", 3));
    assert!(!matches_at(b"abc", b"", 4));
    assert!(!matches_at(b"abc", b"a", usize::MAX));
    assert!(!matches_at(b"", b"a", 0));
}
