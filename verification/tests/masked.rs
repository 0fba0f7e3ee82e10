use tuigreet::masked::MaskedString;

#[test]
fn get_value_when_unmasked() {
    let masked = MaskedString::from("value".to_string(), None);

    assert_eq!(masked.get(), "value");
}

#[test]
fn get_mask_when_masked() {
    let masked = MaskedString::from("value".to_string(), Some("mask".to_string()));

    assert_eq!(masked.get(), "mask");
}

#[test]
fn zeroize_erases_value_and_mask() {
    let mut masked = MaskedString::from("secret".to_string(), Some("******".to_string()));
    masked.zeroize();

    assert_eq!(masked.value, "");
    assert!(masked.mask.is_none());
    assert_eq!(masked.get(), "");
}

#[test]
fn empty_mask_is_shown_as_is() {
    let masked = MaskedString::from("value".to_string(), Some(String::new()));

    assert_eq!(masked.get(), "");
}
