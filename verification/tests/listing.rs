use chmod_bpf::listing::{first_free_gid, group_ids, space};

fn reference_ids(text: &str) -> Vec<u32> {
    text.lines()
        .filter_map(|line| line.split_whitespace().nth(1))
        .filter_map(|gid| gid.parse::<u32>().ok())
        .collect()
}

#[test]
fn first_free_gid_fills_the_first_gap() {
    assert_eq!(first_free_gid(vec![100, 101, 103], 100), Some(102));
}

#[test]
fn first_free_gid_of_no_ids_is_the_minimum() {
    assert_eq!(first_free_gid(vec![], 100), Some(100));
}

#[test]
fn first_free_gid_follows_an_unbroken_run() {
    assert_eq!(first_free_gid(vec![100, 101, 102], 100), Some(103));
}

#[test]
fn first_free_gid_passes_over_ids_below_the_minimum() {
    assert_eq!(first_free_gid(vec![5], 100), Some(100));
    assert_eq!(first_free_gid(vec![0, 1, 20, 99], 100), Some(100));
    assert_eq!(first_free_gid(vec![98, 99, 100, 101], 100), Some(102));
    assert_eq!(first_free_gid(vec![99, 101], 100), Some(100));
}

#[test]
fn first_free_gid_takes_ids_in_any_order_and_number() {
    assert_eq!(first_free_gid(vec![103, 100, 101], 100), Some(102));
    assert_eq!(first_free_gid(vec![100, 100, 101], 100), Some(102));
    assert_eq!(first_free_gid(vec![101, 100, 100, 103, 101, 102, 102], 100), Some(104));
}

#[test]
fn first_free_gid_is_never_below_the_minimum() {
    assert_eq!(first_free_gid(vec![200, 300], 100), Some(100));
    assert_eq!(first_free_gid(vec![200, 300], 0), Some(0));
    assert_eq!(first_free_gid(vec![0, 1, 2], 0), Some(3));
}

#[test]
fn first_free_gid_ends_at_the_largest_id() {
    assert_eq!(first_free_gid(vec![u32::MAX - 1], u32::MAX - 1), Some(u32::MAX));
    assert_eq!(first_free_gid(vec![u32::MAX], u32::MAX), None);
    assert_eq!(first_free_gid(vec![u32::MAX, u32::MAX - 1], u32::MAX - 1), None);
    assert_eq!(first_free_gid(vec![], u32::MAX), Some(u32::MAX));
}

#[test]
fn space_agrees_with_unicode_white_space() {
    for code in 0..=0x10FFFFu32 {
        if let Some(c) = char::from_u32(code) {
            assert_eq!(space(c), c.is_whitespace(), "U+{code:04X}");
        }
    }
}

#[test]
fn group_ids_reads_the_second_word_of_each_line() {
    let text = "nobody         -2\nwheel          0\ndaemon         1\naccess_bpf     501\n";
    assert_eq!(group_ids(text), vec![0, 1, 501]);
}

#[test]
fn group_ids_of_empty_text_is_empty() {
    assert_eq!(group_ids(""), Vec::<u32>::new());
    assert_eq!(group_ids("\n\n\n"), Vec::<u32>::new());
    assert_eq!(group_ids("   \n \t \n"), Vec::<u32>::new());
}

#[test]
fn group_ids_passes_over_lines_without_a_number() {
    assert_eq!(group_ids("one\n"), Vec::<u32>::new());
    assert_eq!(group_ids("a b\nc 7\nd\n"), vec![7]);
    assert_eq!(group_ids("a 1b\n"), Vec::<u32>::new());
    assert_eq!(group_ids("a -1\n"), Vec::<u32>::new());
    assert_eq!(group_ids("a +\n"), Vec::<u32>::new());
    assert_eq!(group_ids("a 4294967296\n"), Vec::<u32>::new());
}

#[test]
fn group_ids_reads_numbers_as_written() {
    assert_eq!(group_ids("a +5\n"), vec![5]);
    assert_eq!(group_ids("a 00012\n"), vec![12]);
    assert_eq!(group_ids("a 4294967295\n"), vec![u32::MAX]);
    assert_eq!(group_ids("a 0\n"), vec![0]);
    assert_eq!(group_ids("a 7 8 9\n"), vec![7]);
}

#[test]
fn group_ids_reads_the_last_line_without_a_line_feed() {
    assert_eq!(group_ids("a 1\nb 2"), vec![1, 2]);
    assert_eq!(group_ids("a 1"), vec![1]);
}

#[test]
fn group_ids_keeps_the_order_of_the_lines() {
    assert_eq!(group_ids("c 103\na 100\nb 100\n"), vec![103, 100, 100]);
}

#[test]
fn group_ids_agrees_with_lines_and_words_of_the_standard_library() {
    let texts = [
        "",
        "\n",
        "a 1",
        "a 1\r\nb 2\r\n",
        "a 1\rb 2\n",
        "  lead  7 trailing words\n",
        "one\n",
        "x +5\ny -5\nz 4294967295\nw 4294967296\nv 00012\n",
        "tab\t9\n",
        "nbsp\u{a0}10\n",
        "em\u{2003}11\n",
        "ls\u{2028}12 13\n",
        "ps\u{2029}14\n",
        "nel\u{85}15\n",
        "ogham\u{1680}16\n",
        "ideographic\u{3000}17\n",
        "narrow\u{202f}18\n",
        "math\u{205f}19\n",
        "zero-width\u{200b}20 21\n",
        "vt\u{b}22\nff\u{c}23\n",
        "a 1b\n",
        "a \u{661}\u{662}\n",
        "a + \n",
        "a ++1\n",
        "a 1+\n",
        "\u{e9}t\u{e9} 33\n",
        "a 99999999999999999999\n",
        "a 0000000000000000000001\n",
        "_amavisd 83\n_appleevents 55\n_appowner 87\naccess_bpf 501\n",
    ];
    for text in texts {
        assert_eq!(group_ids(text), reference_ids(text), "{text:?}");
    }
}
