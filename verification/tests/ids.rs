use polar::CheckoutSessionStatus;
use polar::HttpMethod;
use polar::Timestamp;
use polar::Uuid;

const SAMPLE_BYTES: [u8; 16] = [
    0x12, 0x34, 0x56, 0x78, 0x9a, 0xbc, 0xde, 0xf0, 0x01, 0x23, 0x45, 0x67, 0x89, 0xab, 0xcd,
    0xef,
];

#[test]
fn uuid_text_is_the_hyphenated_form() {
    let id = Uuid::new(SAMPLE_BYTES);

    assert_eq!(id.to_text(), "12345678-9abc-def0-0123-456789abcdef");
}

#[test]
fn uuid_text_of_zero_bytes() {
    let id = Uuid::new([0u8; 16]);

    assert_eq!(id.to_text(), "00000000-0000-0000-0000-000000000000");
}

#[test]
fn uuid_text_of_high_bytes() {
    let id = Uuid::new([0xffu8; 16]);

    assert_eq!(id.to_text(), "ffffffff-ffff-ffff-ffff-ffffffffffff");
}

#[test]
fn uuid_text_matches_the_uuid_crate() {
    let bytes_list: [[u8; 16]; 3] = [
        SAMPLE_BYTES,
        [0u8; 16],
        [0x0f, 0xf0, 0x10, 0x2a, 0x00, 0xff, 0x7f, 0x80, 0x55, 0xaa, 0x01, 0x02, 0x03, 0x04,
            0x05, 0x06],
    ];
    for bytes in bytes_list {
        let ours = Uuid::new(bytes).to_text();
        let theirs = uuid::Uuid::from_bytes(bytes).to_string();

        assert_eq!(ours, theirs);
    }
}

#[test]
fn checkout_session_endpoint_paths() {
    let id = Uuid::new(SAMPLE_BYTES);
    let remote = uuid::Uuid::from_bytes(SAMPLE_BYTES);

    let create = polar::create_checkout_session_endpoint();
    assert!(matches!(create.method, HttpMethod::Post));
    assert_eq!(create.path, "checkouts");

    let get = polar::get_checkout_session_endpoint(&id);
    assert!(matches!(get.method, HttpMethod::Get));
    assert_eq!(get.path, format!("checkouts/{remote}"));
}

#[test]
fn subscription_endpoint_paths() {
    let id = Uuid::new(SAMPLE_BYTES);
    let remote = uuid::Uuid::from_bytes(SAMPLE_BYTES);

    let update = polar::update_subscription_endpoint(&id);
    assert!(matches!(update.method, HttpMethod::Patch));
    assert_eq!(update.path, format!("subscriptions/{remote}"));

    let revoke = polar::revoke_subscription_endpoint(&id);
    assert!(matches!(revoke.method, HttpMethod::Delete));
    assert_eq!(revoke.path, format!("subscriptions/{remote}"));
}

#[test]
fn is_succeeded_only_for_succeeded() {
    assert!(CheckoutSessionStatus::Succeeded.is_succeeded());
    assert!(!CheckoutSessionStatus::Open.is_succeeded());
    assert!(!CheckoutSessionStatus::Expired.is_succeeded());
    assert!(!CheckoutSessionStatus::Confirmed.is_succeeded());
    assert!(!CheckoutSessionStatus::Failed.is_succeeded());
}

#[test]
fn timestamp_rejects_a_nanosecond_part_of_a_second_or_more() {
    assert!(Timestamp::new(0, 1_000_000_000).is_none());

    let t = Timestamp::new(1_700_000_000, 999_999_999).unwrap();
    assert_eq!(t.secs, 1_700_000_000);
    assert_eq!(t.nanos, 999_999_999);

    let whole = Timestamp::from_secs(-1);
    assert_eq!(whole.secs, -1);
    assert_eq!(whole.nanos, 0);
}

#[test]
fn timestamp_converts_through_chrono() {
    let t = Timestamp::new(1_700_000_000, 500).unwrap();
    let date = chrono::DateTime::<chrono::Utc>::from_timestamp(t.secs, t.nanos).unwrap();

    assert_eq!(date.timestamp(), t.secs);
    assert_eq!(date.timestamp_subsec_nanos(), t.nanos);
}
