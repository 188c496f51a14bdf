use lines::byte_sum;

#[test]
fn byte_sum_of_nothing_is_zero() {
    assert_eq!(byte_sum(""), Some(0));
}

#[test]
fn byte_sum_of_one_letter_is_its_code() {
    assert_eq!(byte_sum("a"), Some(97));
}

#[test]
fn byte_sum_adds_every_byte() {
    assert_eq!(byte_sum("bb"), Some(98 + 98));
    assert_eq!(byte_sum("ccc"), Some(99 + 99 + 99));
    assert_eq!(byte_sum("abc"), Some(294));
}

#[test]
fn byte_sum_counts_bytes_not_characters() {
    assert_eq!(byte_sum("\u{e9}"), Some(0xc3 + 0xa9));
    assert_eq!(byte_sum("\u{20ac}"), Some(0xe2 + 0x82 + 0xac));
}

#[test]
fn byte_sum_counts_a_kept_carriage_return() {
    assert_eq!(byte_sum("a\r"), Some(97 + 13));
}

#[test]
fn byte_sum_of_a_long_line() {
    let line = "\u{7f}".repeat(100_000);
    assert_eq!(byte_sum(&line), Some(12_700_000));
}
