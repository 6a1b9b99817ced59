use tunein_cli::provider::is_valid_uuid;

#[test]
fn station_uuid_is_valid() {
    assert!(is_valid_uuid("964da563-0601-11e8-ae97-52543be04c81"));
}

#[test]
fn catalog_ids_are_not_uuids() {
    assert!(!is_valid_uuid("s288303"));
    assert!(!is_valid_uuid(""));
    assert!(!is_valid_uuid("964da563-0601-61e8-ae97-52543be04c81"));
    assert!(!is_valid_uuid("964da563-0601-11e8-ce97-52543be04c81"));
    assert!(!is_valid_uuid("964da563-0601-11e8-ae97-52543be04c81x"));
}
