use streamcast::text::{has_nul, push_decimal, push_hexadecimal, push_one_line};

fn decimal(n: u64) -> String {
    let mut s = String::new();
    push_decimal(&mut s, n);
    s
}

fn hexadecimal(n: u64) -> String {
    let mut s = String::new();
    push_hexadecimal(&mut s, n);
    s
}

#[test]
fn decimal_numerals() {
    assert_eq!(decimal(0), "0");
    assert_eq!(decimal(7), "7");
    assert_eq!(decimal(10), "10");
    assert_eq!(decimal(44100), "44100");
    assert_eq!(decimal(u64::MAX), "18446744073709551615");
}

#[test]
fn hexadecimal_numerals() {
    assert_eq!(hexadecimal(0), "0");
    assert_eq!(hexadecimal(3), "3");
    assert_eq!(hexadecimal(0x63f), "63f");
    assert_eq!(hexadecimal(0xabcdef), "abcdef");
    assert_eq!(hexadecimal(u64::MAX), "ffffffffffffffff");
}

#[test]
fn numerals_are_appended() {
    let mut s = String::from("rate=");
    push_decimal(&mut s, 48000);
    push_hexadecimal(&mut s, 255);
    assert_eq!(s, "rate=48000ff");
}

#[test]
fn has_nul_finds_a_nul_anywhere() {
    assert!(!has_nul(""));
    assert!(!has_nul("anull"));
    assert!(has_nul("\0"));
    assert!(has_nul("\0anull"));
    assert!(has_nul("an\0ull"));
    assert!(has_nul("anull\0"));
    assert!(!has_nul("volume=0.5"));
}

#[test]
fn line_breaks_become_blanks() {
    let mut s = String::from(">");
    push_one_line(&mut s, "a\nb\r\nc");
    assert_eq!(s, ">a b  c");
    push_one_line(&mut s, "");
    assert_eq!(s, ">a b  c");
    push_one_line(&mut s, "\n");
    assert_eq!(s, ">a b  c ");
}
