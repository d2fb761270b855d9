use corekit::naming::{env_name_from_field_ident, snake_to_screaming};

#[test]
fn snake_case_fields_become_screaming_snake_case() {
    assert_eq!(snake_to_screaming("corekit_test_service_url"), "COREKIT_TEST_SERVICE_URL");
    assert_eq!(env_name_from_field_ident("corekit_test_worker_count"), "COREKIT_TEST_WORKER_COUNT");
    assert_eq!(env_name_from_field_ident("port2"), "PORT2");
}

#[test]
fn camel_case_boundaries_get_an_underscore() {
    assert_eq!(snake_to_screaming("workerCount"), "WORKER_COUNT");
    assert_eq!(snake_to_screaming("apiV2Key"), "API_V2_KEY");
    assert_eq!(snake_to_screaming("my_Url"), "MY_URL");
    assert_eq!(snake_to_screaming("a1B"), "A1_B");
    assert_eq!(env_name_from_field_ident("HTTPServer"), "HTTPSERVER");
}

#[test]
fn uppercase_identifiers_are_kept_as_they_are() {
    assert_eq!(env_name_from_field_ident("COREKIT_UPPER_DATABASE_URL"), "COREKIT_UPPER_DATABASE_URL");
    assert_eq!(env_name_from_field_ident(""), "");
}

#[test]
fn naming_is_idempotent() {
    for ident in ["database_url", "workerCount", "HTTPServer", "x_y_z9", "aB_cD"] {
        let once = env_name_from_field_ident(ident);
        let twice = env_name_from_field_ident(&once);
        assert_eq!(once, twice);
        assert!(!once.chars().any(|c| c.is_ascii_lowercase()));
    }
}

#[test]
fn non_ascii_characters_pass_through() {
    assert_eq!(snake_to_screaming("café_x"), "CAFé_X");
}

