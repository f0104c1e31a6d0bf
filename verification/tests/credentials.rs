use timeular_client::credentials::extract_credentials;

#[test]
fn extracts_key_and_secret_at_fixed_offsets() {
    let c = extract_credentials("key:abc123", "secret:xyz789");
    assert_eq!(c.api_key, "abc123");
    assert_eq!(c.api_secret, "xyz789");
}

#[test]
fn a_space_after_the_label_stays_part_of_the_value() {
    let c = extract_credentials("key: abc123", "secret: xyz789");
    assert_eq!(c.api_key, " abc123");
    assert_eq!(c.api_secret, " xyz789");
}

#[test]
fn extraction_trusts_offsets_not_labels() {
    let c = extract_credentials("abcdVALUE", "abcdefgSECRET");
    assert_eq!(c.api_key, "VALUE");
    assert_eq!(c.api_secret, "SECRET");
}

#[test]
fn extraction_keeps_everything_after_the_prefix() {
    let c = extract_credentials("key:a b: c", "secret:s: t ");
    assert_eq!(c.api_key, "a b: c");
    assert_eq!(c.api_secret, "s: t ");
}

#[test]
fn minimal_lines_yield_empty_values() {
    let c = extract_credentials("key:", "secret:");
    assert_eq!(c.api_key, "");
    assert_eq!(c.api_secret, "");
}
