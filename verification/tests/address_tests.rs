use mbus_httpd::address::check_address;

const INVALID: &str = "Not a valid primary or secondary address";

fn accepted(address: &str) -> bool {
    check_address(address).is_ok()
}

/// What the rule says of a text of one to three characters, worked out with
/// the standard library's integer parser.
fn primary_by_parse(address: &str) -> bool {
    match address.parse::<i32>() {
        Ok(n) => (0..=255).contains(&n),
        Err(_) => false,
    }
}

#[test]
fn primary_addresses_in_range_are_accepted() {
    for n in 0..=255 {
        let text = format!("{}", n);
        assert_eq!(check_address(&text), Ok(()), "address {}", text);
    }
}

#[test]
fn primary_addresses_out_of_range_are_rejected() {
    for n in 256..=999 {
        let text = format!("{}", n);
        assert_eq!(check_address(&text), Err(INVALID.to_string()), "address {}", text);
    }
    for n in -99..0 {
        let text = format!("{}", n);
        assert_eq!(check_address(&text), Err(INVALID.to_string()), "address {}", text);
    }
}

#[test]
fn primary_addresses_with_leading_zeros() {
    assert!(accepted("0"));
    assert!(accepted("00"));
    assert!(accepted("000"));
    assert!(accepted("007"));
    assert!(accepted("048"));
    assert!(accepted("255"));
    assert!(!accepted("256"));
    assert!(!accepted("999"));
}

#[test]
fn signed_primary_addresses_follow_the_integer_grammar() {
    assert!(accepted("+5"));
    assert!(accepted("+48"));
    assert!(accepted("+0"));
    assert!(accepted("-0"));
    assert!(accepted("-00"));
    assert!(!accepted("-1"));
    assert!(!accepted("-48"));
    assert!(!accepted("+"));
    assert!(!accepted("-"));
    assert!(!accepted("+-1"));
    assert!(!accepted("1+"));
    assert!(!accepted("++1"));
}

#[test]
fn non_numeric_short_texts_are_rejected() {
    for text in ["a", "ab", "abc", "1a", "a1", "1 ", " 1", "0x1", "1.0", "ff", "\u{e9}", "\u{ff11}"] {
        assert_eq!(check_address(text), Err(INVALID.to_string()), "address {:?}", text);
    }
}

#[test]
fn short_texts_agree_with_the_integer_parser() {
    let alphabet = ['0', '1', '2', '5', '6', '9', '+', '-', 'a', 'F', ' ', '/', ':', '\u{e9}'];
    let mut checked = 0;
    for a in alphabet {
        let one = format!("{}", a);
        assert_eq!(accepted(&one), primary_by_parse(&one), "address {:?}", one);
        checked += 1;
        for b in alphabet {
            let two = format!("{}{}", a, b);
            assert_eq!(accepted(&two), primary_by_parse(&two), "address {:?}", two);
            checked += 1;
            for c in alphabet {
                let three = format!("{}{}{}", a, b, c);
                assert_eq!(accepted(&three), primary_by_parse(&three), "address {:?}", three);
                checked += 1;
            }
        }
    }
    assert_eq!(checked, 14 + 14 * 14 + 14 * 14 * 14);
}

#[test]
fn secondary_addresses_of_hex_digits_are_accepted() {
    assert!(accepted("0123456789abcdef"));
    assert!(accepted("0123456789ABCDEF"));
    assert!(accepted("0000000000000000"));
    assert!(accepted("ffffffffffffffff"));
    assert!(accepted("FFFFFFFFFFFFFFFF"));
    assert!(accepted("12345678aAbBcCdD"));
}

#[test]
fn secondary_addresses_with_another_character_are_rejected() {
    let good = "0123456789abcdef";
    for position in 0..16 {
        for bad in ['g', 'G', ' ', '-', '+', 'x', '/', ':', '@', '`', '\u{e9}'] {
            let text: String = good
                .chars()
                .enumerate()
                .map(|(i, c)| if i == position { bad } else { c })
                .collect();
            assert_eq!(check_address(&text), Err(INVALID.to_string()), "address {:?}", text);
        }
    }
}

#[test]
fn every_single_character_is_judged_as_a_hex_digit_should_be() {
    for code in 0u32..0x250 {
        let c = match char::from_u32(code) {
            Some(c) => c,
            None => continue,
        };
        let text: String = format!("{}{}", "0123456789abcde", c);
        assert_eq!(accepted(&text), c.is_ascii_hexdigit(), "last character {:?}", c);
    }
}

#[test]
fn other_lengths_are_rejected() {
    assert!(!accepted(""));
    assert!(!accepted("0000"));
    assert!(!accepted("1234"));
    assert!(!accepted("12345"));
    assert!(!accepted("0123456789abcde"));
    assert!(!accepted("0123456789abcdef0"));
    assert!(!accepted("00000000000000000000000000000000"));
}

#[test]
fn rejection_carries_the_message() {
    assert_eq!(check_address(""), Err(INVALID.to_string()));
    assert_eq!(check_address("300"), Err(INVALID.to_string()));
    assert_eq!(check_address("zzzzzzzzzzzzzzzz"), Err(INVALID.to_string()));
}
