use neviraide_core::text::bool_to_string;
use neviraide_core::text::bracket;
use neviraide_core::text::debug_list;
use neviraide_core::text::join;
use neviraide_core::text::usize_to_string;

fn strings(items: &[&str]) -> Vec<String> {
    items.iter().map(|s| s.to_string()).collect()
}

#[test]
fn bool_is_written_as_true_or_false() {
    assert_eq!(bool_to_string(true), "true");
    assert_eq!(bool_to_string(false), "false");
}

#[test]
fn numbers_are_written_in_decimal() {
    assert_eq!(usize_to_string(0), "0");
    assert_eq!(usize_to_string(4), "4");
    assert_eq!(usize_to_string(9), "9");
    assert_eq!(usize_to_string(10), "10");
    assert_eq!(usize_to_string(11), "11");
    assert_eq!(usize_to_string(100), "100");
    assert_eq!(usize_to_string(1234567890), "1234567890");
}

#[test]
fn decimal_of_the_largest_number_agrees_with_std() {
    assert_eq!(usize_to_string(usize::MAX), usize::MAX.to_string());
    assert_eq!(usize_to_string(usize::MAX - 1), (usize::MAX - 1).to_string());
}

#[test]
fn decimal_agrees_with_std_on_many_numbers() {
    let mut n: usize = 0;
    while n < 5000 {
        assert_eq!(usize_to_string(n), n.to_string());
        n += 1;
    }
    let mut m: usize = 1;
    while m < usize::MAX / 7 {
        assert_eq!(usize_to_string(m), m.to_string());
        assert_eq!(usize_to_string(m - 1), (m - 1).to_string());
        m *= 7;
    }
}

#[test]
fn a_decimal_reads_back_as_the_number() {
    let text = usize_to_string(11);
    let number: i32 = text.parse().unwrap();
    assert_eq!(number, 11);
}

#[test]
fn join_of_no_items_is_empty() {
    assert_eq!(join(&Vec::new(), ","), "");
}

#[test]
fn join_of_one_item_is_the_item() {
    assert_eq!(join(&strings(&["lua"]), ","), "lua");
}

#[test]
fn join_puts_the_separator_between_items() {
    assert_eq!(join(&strings(&["lua", "rust"]), ","), "lua,rust");
    assert_eq!(join(&strings(&["a", "b", "c"]), ", "), "a, b, c");
    assert_eq!(join(&strings(&["a", "", "c"]), "-"), "a--c");
    assert_eq!(join(&strings(&["", ""]), ","), ",");
    assert_eq!(join(&strings(&["x", "y"]), ""), "xy");
}

#[test]
fn join_agrees_with_std() {
    let items = strings(&["lua", "rust", "", "c++", "zig"]);
    assert_eq!(join(&items, ","), items.join(","));
    assert_eq!(join(&items, " and "), items.join(" and "));
}

#[test]
fn bracket_wraps_the_joined_items() {
    assert_eq!(bracket(&Vec::new()), "[]");
    assert_eq!(bracket(&strings(&["\"lua\""])), "[\"lua\"]");
    assert_eq!(bracket(&strings(&["\"lua\"", "\"rust\""])), "[\"lua\", \"rust\"]");
    assert_eq!(bracket(&strings(&["1", "2", "3"])), "[1, 2, 3]");
}

#[test]
fn debug_list_quotes_each_item() {
    assert_eq!(debug_list(&strings(&["lua", "rust"])), "[\"lua\", \"rust\"]");
    assert_eq!(debug_list(&Vec::new()), "[]");
    assert_eq!(debug_list(&strings(&["lua"])), "[\"lua\"]");
}

#[test]
fn debug_list_escapes_what_does_not_read_as_itself() {
    assert_eq!(debug_list(&strings(&["a\"b"])), "[\"a\\\"b\"]");
    assert_eq!(debug_list(&strings(&["line\nbreak", "back\\slash"])), "[\"line\\nbreak\", \"back\\\\slash\"]");
}

#[test]
fn debug_list_agrees_with_std() {
    let items = strings(&["lua", "ru st", "tab\t", "quote'", "\u{1b}", "é"]);
    assert_eq!(debug_list(&items), format!("{:?}", items));
}
