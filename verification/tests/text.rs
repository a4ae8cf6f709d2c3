use chat_server::text::decimal_i64;

#[test]
fn decimal_text_of_integers() {
    for n in [0i64, 7, 10, 42, 1000, -1, -10, -987654321, i64::MAX, i64::MIN] {
        assert_eq!(decimal_i64(n), n.to_string());
    }
}
