use openharmony_ability::shared::{store_want_parameters, take_want_parameters, Shared};

#[test]
fn test_want_parameters_store_take_overwrite() {
    let mut slot = Shared::new(String::new());

    // 1. store and take
    take_want_parameters(&mut slot); // ensure clean state
    store_want_parameters(&mut slot, r#"{"key":"value","num":42}"#);
    assert_eq!(take_want_parameters(&mut slot), r#"{"key":"value","num":42}"#);

    // 2. take clears after read
    store_want_parameters(&mut slot, r#"{"source":"widget"}"#);
    assert_eq!(take_want_parameters(&mut slot), r#"{"source":"widget"}"#);
    assert_eq!(take_want_parameters(&mut slot), "");

    // 3. take without store returns empty
    assert_eq!(take_want_parameters(&mut slot), "");

    // 4. overwrite: last store wins
    store_want_parameters(&mut slot, r#"{"first":1}"#);
    store_want_parameters(&mut slot, r#"{"second":2}"#);
    assert_eq!(take_want_parameters(&mut slot), r#"{"second":2}"#);
}

#[test]
fn poisoned_parameters_are_neither_stored_nor_taken() {
    let mut slot = Shared::new(String::new());
    store_want_parameters(&mut slot, "{}");
    slot.poison();
    store_want_parameters(&mut slot, "[1]");
    assert_eq!(take_want_parameters(&mut slot), "");
    assert_eq!(slot.value, "{}");
    assert!(slot.poisoned);
}
