use p2p_ledger::custom_error::CustomError;

#[test]
fn custom_error_keeps_its_message() {
    let error = CustomError::new("connection refused");
    assert_eq!(error.to_string(), "connection refused");
    assert_eq!(CustomError::new("").to_string(), "");
    assert_eq!(CustomError::new("d\u{e9}cod\u{e9}").to_string(), "d\u{e9}cod\u{e9}");
}
