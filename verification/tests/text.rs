use spotify_rooms::text::push_decimal;

fn decimal(n: u64) -> String {
    let mut s = String::from("n=");
    push_decimal(&mut s, n);
    s
}

#[test]
fn decimal_notation() {
    assert_eq!(decimal(0), "n=0");
    assert_eq!(decimal(7), "n=7");
    assert_eq!(decimal(10), "n=10");
    assert_eq!(decimal(500), "n=500");
    assert_eq!(decimal(65535), "n=65535");
    assert_eq!(decimal(u64::MAX), "n=18446744073709551615");
}
