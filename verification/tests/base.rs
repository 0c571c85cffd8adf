use animatrix::base::{generate_id, AppError};

#[test]
fn ids_are_unique() {
    assert_ne!(generate_id(), generate_id());
}

#[test]
fn generated_ids_are_version_four_uuids() {
    let id = generate_id();
    assert_eq!((id >> 76) & 0xf, 4);
    assert_eq!((id >> 62) & 0x3, 2);
}

#[test]
fn app_error_carries_code_message_and_source() {
    let e = AppError::new("db_connect", "refused");
    assert_eq!(e.code, "db_connect");
    assert_eq!(e.message, "refused");
    assert_eq!(e.source, None);
    let e = e.with_source("sqlite");
    assert_eq!(e.code, "db_connect");
    assert_eq!(e.source, Some("sqlite".to_string()));
}
