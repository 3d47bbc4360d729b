use graphviz_dot_builder::text::{
    append_wrapped, bool_str, join_strings, u32_to_decimal, u8_to_hex,
};

#[test]
fn decimal_of_small_numbers() {
    assert_eq!(u32_to_decimal(0), "0");
    assert_eq!(u32_to_decimal(7), "7");
    assert_eq!(u32_to_decimal(9), "9");
    assert_eq!(u32_to_decimal(10), "10");
    assert_eq!(u32_to_decimal(11), "11");
    assert_eq!(u32_to_decimal(100), "100");
    assert_eq!(u32_to_decimal(1234567890), "1234567890");
}

#[test]
fn decimal_of_the_largest_number() {
    assert_eq!(u32_to_decimal(u32::MAX), "4294967295");
}

#[test]
fn decimal_agrees_with_the_standard_formatting() {
    let mut n: u32 = 1;
    for _ in 0..40 {
        assert_eq!(u32_to_decimal(n), n.to_string());
        assert_eq!(u32_to_decimal(n - 1), (n - 1).to_string());
        n = n.wrapping_mul(7).wrapping_add(3);
    }
}

#[test]
fn hexadecimal_of_bytes() {
    assert_eq!(u8_to_hex(0), "00");
    assert_eq!(u8_to_hex(9), "09");
    assert_eq!(u8_to_hex(10), "0a");
    assert_eq!(u8_to_hex(255), "ff");
    for b in 0..=255u8 {
        assert_eq!(u8_to_hex(b), format!("{:02x}", b));
    }
}

#[test]
fn truth_values_are_spelled_out() {
    assert_eq!(bool_str(true), "true");
    assert_eq!(bool_str(false), "false");
}

#[test]
fn join_puts_the_separator_between_neighbours() {
    let none: Vec<String> = Vec::new();
    assert_eq!(join_strings(&none, ","), "");
    assert_eq!(join_strings(&vec!["a".to_string()], ","), "a");
    assert_eq!(join_strings(&vec!["a".to_string(), "b".to_string()], ","), "a,b");
    assert_eq!(
        join_strings(&vec!["a".to_string(), String::new(), "c".to_string()], ", "),
        "a, , c"
    );
}

#[test]
fn append_wrapped_keeps_what_was_there() {
    let mut res = "head".to_string();
    append_wrapped(&mut res, &vec!["a".to_string(), "b".to_string()], "<", ">");
    assert_eq!(res, "head<a><b>");
    append_wrapped(&mut res, &Vec::new(), "<", ">");
    assert_eq!(res, "head<a><b>");
}
