use recorder::outside::percent_decode;
use recorder::text::{to_lower, to_upper};

#[test]
fn percent_decoding_keeps_what_is_not_an_escape() {
    assert_eq!(percent_decode("a%20b+c").unwrap(), "a b+c");
    assert_eq!(percent_decode("%zz%4").unwrap(), "%zz%4");
    assert_eq!(percent_decode("%4g").unwrap(), "%4g");
    assert_eq!(percent_decode("%E4%BD%A0").unwrap(), "\u{4f60}");
    assert_eq!(percent_decode("plain").unwrap(), "plain");
    assert!(percent_decode("%FF").is_err());
}

#[test]
fn ascii_case_maps_letters_only() {
    let s: Vec<char> = "Hello, Wörld_9".chars().collect();
    assert_eq!(to_lower(&s).into_iter().collect::<String>(), "hello, wörld_9");
    assert_eq!(to_upper(&s).into_iter().collect::<String>(), "HELLO, WöRLD_9");
}
