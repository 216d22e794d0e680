use exactapi::text::{i64_to_decimal, remove_all_exec, u64_to_decimal, chars_of};

#[test]
fn decimal_of_zero_and_small_numbers() {
    assert_eq!(u64_to_decimal(0), "0");
    assert_eq!(u64_to_decimal(7), "7");
    assert_eq!(u64_to_decimal(10), "10");
    assert_eq!(u64_to_decimal(1234567), "1234567");
}

#[test]
fn decimal_of_extremes() {
    assert_eq!(u64_to_decimal(u64::MAX), u64::MAX.to_string());
    assert_eq!(i64_to_decimal(i64::MIN), i64::MIN.to_string());
    assert_eq!(i64_to_decimal(i64::MAX), i64::MAX.to_string());
    assert_eq!(i64_to_decimal(-1), "-1");
    assert_eq!(i64_to_decimal(-305), "-305");
}

#[test]
fn remove_all_takes_out_every_occurrence() {
    assert_eq!(remove_all_exec("abcabcab", "abc"), "ab");
    assert_eq!(remove_all_exec("xaaay", "aa"), "xay");
    assert_eq!(remove_all_exec("hello", ""), "hello");
    assert_eq!(remove_all_exec("", "a"), "");
    assert_eq!(remove_all_exec("nothing here", "zz"), "nothing here");
}

#[test]
fn remove_all_agrees_with_std_replace() {
    let cases = [
        ("https://start.exactonline.nl/api/v1/1/crm/Accounts?$skiptoken=guid'x'", "https://start.exactonline.nl"),
        ("aaaa", "aa"),
        ("ééaé", "é"),
        ("ab", "abc"),
    ];
    for (s, p) in cases {
        assert_eq!(remove_all_exec(s, p), s.replace(p, ""));
    }
}

#[test]
fn chars_of_unicode_text() {
    assert_eq!(chars_of("aé€"), vec!['a', 'é', '€']);
}
