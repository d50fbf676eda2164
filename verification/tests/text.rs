use hedera::decimal::{parse_u64, push_decimal};
use hedera::hex::{hex_text, hex_value, parse_hex, push_hex_fixed};
use hedera::key::{bytes_equal, copy_bytes};
use hedera::text::{chars_of, digit_text, digit_value};
use hedera::{Hbar, PublicKey};

#[test]
fn characters_are_read_in_order() {
    assert_eq!(chars_of("a.ß"), vec!['a', '.', 'ß']);
    assert_eq!(chars_of(""), Vec::<char>::new());
}

#[test]
fn digits_have_their_values() {
    assert_eq!(digit_value('0'), 0);
    assert_eq!(digit_value('9'), 9);
    assert_eq!(digit_value('a'), 10);
    assert_eq!(digit_value('/'), 10);
    assert_eq!(digit_value(':'), 10);
    for d in 0..10u8 {
        assert_eq!(digit_text(d), d.to_string());
        assert_eq!(digit_value(digit_text(d).chars().next().unwrap()), d);
    }
}

#[test]
fn decimal_numbers_are_written_and_read() {
    for n in [0u64, 9, 10, 99, 100, 1001, u64::MAX] {
        let mut text = String::from(">");
        push_decimal(&mut text, n);
        assert_eq!(text, format!(">{}", n));
        let chars = chars_of(&text);
        assert_eq!(parse_u64(&chars, 1, chars.len()), Some(n));
    }
}

#[test]
fn decimal_reader_reads_the_range_it_is_given() {
    let chars = chars_of("12.345");
    assert_eq!(parse_u64(&chars, 0, 2), Some(12));
    assert_eq!(parse_u64(&chars, 3, 6), Some(345));
    assert_eq!(parse_u64(&chars, 0, 3), None);
    assert_eq!(parse_u64(&chars, 2, 2), None);
    let chars = chars_of("18446744073709551616");
    assert_eq!(parse_u64(&chars, 0, chars.len()), None);
    assert_eq!(parse_u64(&chars, 0, chars.len() - 1), Some(1844674407370955161));
    let chars = chars_of("99999999999999999999");
    assert_eq!(parse_u64(&chars, 0, chars.len()), None);
}

#[test]
fn hex_digits_have_their_values() {
    assert_eq!(hex_value('0'), 0);
    assert_eq!(hex_value('9'), 9);
    assert_eq!(hex_value('a'), 10);
    assert_eq!(hex_value('f'), 15);
    assert_eq!(hex_value('A'), 10);
    assert_eq!(hex_value('F'), 15);
    assert_eq!(hex_value('g'), 16);
    assert_eq!(hex_value('G'), 16);
    assert_eq!(hex_value('@'), 16);
    assert_eq!(hex_value('`'), 16);
    for d in 0..16u8 {
        assert_eq!(hex_text(d), format!("{:x}", d));
    }
}

#[test]
fn hex_numbers_are_written_and_read() {
    let mut text = String::new();
    push_hex_fixed(&mut text, 0x138d, 8);
    assert_eq!(text, "0000138d");
    push_hex_fixed(&mut text, u64::MAX, 16);
    assert_eq!(text, "0000138dffffffffffffffff");
    push_hex_fixed(&mut text, 0x1234, 2);
    assert_eq!(text, "0000138dffffffffffffffff34");
    push_hex_fixed(&mut text, 7, 0);
    assert_eq!(text, "0000138dffffffffffffffff34");
    let chars = chars_of(&text);
    assert_eq!(parse_hex(&chars, 0, 8), Some(0x138d));
    assert_eq!(parse_hex(&chars, 8, 24), Some(u64::MAX));
    assert_eq!(parse_hex(&chars, 7, 24), None);
    assert_eq!(parse_hex(&chars, 3, 3), Some(0));
    assert_eq!(parse_hex(&chars_of("12x4"), 0, 4), None);
}

#[test]
fn byte_strings_are_compared_and_copied() {
    assert!(bytes_equal(&vec![1, 2, 3], &vec![1, 2, 3]));
    assert!(!bytes_equal(&vec![1, 2, 3], &vec![1, 2, 4]));
    assert!(!bytes_equal(&vec![1, 2, 3], &vec![1, 2]));
    assert!(bytes_equal(&vec![], &vec![]));
    assert_eq!(copy_bytes(&vec![5, 6]), vec![5, 6]);
    let key = PublicKey::from_bytes(vec![1, 2]);
    assert!(key.same_as(&key.duplicate()));
    assert!(!key.same_as(&PublicKey::from_bytes(vec![1])));
}

#[test]
fn hbar_is_held_in_tinybars() {
    assert_eq!(Hbar::from_tinybars(-20).to_tinybars(), -20);
    assert_eq!(Hbar::from_tinybars(i64::MAX).to_tinybars(), i64::MAX);
}
