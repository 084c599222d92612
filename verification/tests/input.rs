use conduit_admin_graphql::input::{
    reject_unknown_admin_create_user_input_fields, reject_unknown_fields, AdminCreateUserInput,
    ADMIN_CREATE_USER_INPUT_FIELDS,
};

#[test]
fn reject_unknown_fields_accepts_when_all_keys_known() {
    let known = &["username", "displayName", "enabled"];
    let input = &["username", "displayName"];

    let result = reject_unknown_fields(input, known);

    assert!(result.is_ok(), "expected Ok, got {result:?}");
}

#[test]
fn reject_unknown_fields_rejects_when_any_key_unknown() {
    let known = &["username", "displayName", "enabled"];
    let input = &["username", "unscopedRole"];

    let result = reject_unknown_fields(input, known);

    let unknown = match result {
        Err(unknown) => unknown,
        Ok(()) => panic!("expected unknown-field rejection"),
    };
    assert_eq!(unknown, vec!["unscopedRole".to_owned()]);
}

#[test]
fn reject_unknown_fields_collects_every_unknown_key_in_order() {
    let known = &["username"];
    let input = &[
        "username",
        "unscopedRole",
        "isOwner",
        "enabled",
    ];

    let result = reject_unknown_fields(input, known);

    let unknown = match result {
        Err(unknown) => unknown,
        Ok(()) => panic!("expected unknown-field rejection"),
    };
    assert_eq!(
        unknown,
        vec![
            "unscopedRole".to_owned(),
            "isOwner".to_owned(),
            "enabled".to_owned()
        ]
    );
}

#[test]
fn reject_unknown_fields_dedupes_repeated_unknown_keys() {
    let known = &["username"];
    let input = &["username", "unscopedRole", "unscopedRole", "unscopedRole"];

    let result = reject_unknown_fields(input, known);

    let unknown = match result {
        Err(unknown) => unknown,
        Ok(()) => panic!("expected unknown-field rejection"),
    };
    assert_eq!(unknown, vec!["unscopedRole".to_owned()]);
}

#[test]
fn reject_unknown_fields_accepts_empty_input() {
    let known = &["username", "displayName"];
    let result = reject_unknown_fields(&[], known);
    assert!(result.is_ok());
}

#[test]
fn reject_unknown_fields_rejects_every_key_when_known_set_is_empty() {
    let known: &[&str] = &[];
    let input = &["anything", "whatever"];

    let result = reject_unknown_fields(input, known);

    let unknown = match result {
        Err(unknown) => unknown,
        Ok(()) => panic!("expected unknown-field rejection"),
    };
    assert_eq!(unknown, vec!["anything".to_owned(), "whatever".to_owned()]);
}

#[test]
fn admin_create_user_input_validator_uses_generic_predicate() {
    let known = &ADMIN_CREATE_USER_INPUT_FIELDS;
    let generic = match reject_unknown_fields(&["username", "unscopedRole", "enabled"], known) {
        Err(unknown) => unknown,
        Ok(()) => panic!("expected unknown-field rejection"),
    };
    assert_eq!(generic.first().map(String::as_str), Some("unscopedRole"));
}

#[test]
fn the_first_unknown_field_is_reported() {
    assert_eq!(
        reject_unknown_admin_create_user_input_fields(Some(&["username", "unscopedRole", "isOwner"])),
        Err("unknown field \"unscopedRole\"".to_owned())
    );
    assert_eq!(
        reject_unknown_admin_create_user_input_fields(Some(&["Username"])),
        Err("unknown field \"Username\"".to_owned())
    );
}

#[test]
fn known_fields_and_values_that_are_no_objects_pass() {
    assert_eq!(
        reject_unknown_admin_create_user_input_fields(Some(&["enabled", "username", "displayName"])),
        Ok(())
    );
    assert_eq!(reject_unknown_admin_create_user_input_fields(Some(&[])), Ok(()));
    assert_eq!(reject_unknown_admin_create_user_input_fields(None), Ok(()));
}

#[test]
fn an_input_is_plain_data() {
    let input = AdminCreateUserInput {
        username: "alice".to_owned(),
        display_name: Some("Alice Admin".to_owned()),
        enabled: Some(true),
    };
    assert_eq!(input.clone(), input);
}
