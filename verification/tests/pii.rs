use magi_core::pii::{mask_pii, PiiService};

#[test]
fn test_pii_masking_service() {
    let text = "My email is test@example.com and phone is 010-1234-5678. RRN: 900101-1234567";
    let masked = PiiService::mask_pii(text);

    assert!(masked.contains("[EMAIL_HIDDEN]"));
    assert!(masked.contains("[PHONE_HIDDEN]"));
    assert!(masked.contains("[ID_HIDDEN]"));
    assert!(!masked.contains("test@example.com"));
    assert!(!masked.contains("010-1234-5678"));
}

#[test]
fn masking_replaces_each_kind_in_place() {
    let text = "My email is test@example.com and phone is 010-1234-5678. RRN: 900101-1234567";
    assert_eq!(
        PiiService::mask_pii(text),
        "My email is [EMAIL_HIDDEN] and phone is [PHONE_HIDDEN]. RRN: [ID_HIDDEN]"
    );
}

#[test]
fn text_without_personal_data_is_unchanged() {
    assert_eq!(PiiService::mask_pii("Hello MAGI"), "Hello MAGI");
    assert_eq!(PiiService::mask_pii(""), "");
}

#[test]
fn every_mask_entry_point_agrees() {
    let text = "Contact alice@example.com at 010-1234-5678";
    let expected = "Contact [EMAIL_HIDDEN] at [PHONE_HIDDEN]";
    assert_eq!(PiiService::mask_pii(text), expected);
    assert_eq!(PiiService::mask_all_sensitive(text), expected);
    assert_eq!(mask_pii(text), expected);
}

#[test]
fn masking_is_idempotent_on_an_example() {
    let once = mask_pii("id 900101-2345678, mail bob.smith@mail.example.org");
    assert_eq!(once, "id [ID_HIDDEN], mail [EMAIL_HIDDEN]");
    assert_eq!(mask_pii(&once), once);
}
