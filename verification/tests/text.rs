use framesense::text::append_decimal;

fn written(n: u32) -> String {
    let mut text = String::new();
    append_decimal(&mut text, n);
    text
}

#[test]
fn numbers_are_written_in_decimal() {
    assert_eq!(written(0), "0");
    assert_eq!(written(7), "7");
    assert_eq!(written(10), "10");
    assert_eq!(written(1234567890), "1234567890");
    assert_eq!(written(u32::MAX), "4294967295");
    for n in [9u32, 99, 100, 101, 1000, 65535, 1_000_000] {
        assert_eq!(written(n), n.to_string());
    }
}

#[test]
fn a_number_is_written_at_the_end_of_the_text() {
    let mut text = "w=".to_string();
    append_decimal(&mut text, 42);
    assert_eq!(text, "w=42");
}
