use windows_app::text::{concat3, copy_string, decimal_string, with_line_end};

#[test]
fn decimal_numerals() {
    assert_eq!(decimal_string(0), "0");
    assert_eq!(decimal_string(7), "7");
    assert_eq!(decimal_string(9), "9");
    assert_eq!(decimal_string(10), "10");
    assert_eq!(decimal_string(30), "30");
    assert_eq!(decimal_string(1234567890), "1234567890");
    assert_eq!(decimal_string(usize::MAX), usize::MAX.to_string());
}

#[test]
fn three_parts_are_joined_in_order() {
    assert_eq!(concat3("a", "bc", "d"), "abcd");
    assert_eq!(concat3("", "", ""), "");
    assert_eq!(concat3("append line ", "3", " to results"), "append line 3 to results");
}

#[test]
fn line_end_is_carriage_return_and_line_feed() {
    assert_eq!(with_line_end("done"), "done\r\n");
    assert_eq!(with_line_end(""), "\r\n");
}

#[test]
fn copy_is_equal() {
    let s = String::from("C:\\data");
    assert_eq!(copy_string(&s), s);
}
