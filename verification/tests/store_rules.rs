use vorstand_auth::store::{clear_result, load_result, ClearOutcome, LoadOutcome};

#[test]
fn loading_a_missing_entry_yields_none_not_an_error() {
    assert_eq!(load_result(LoadOutcome::Missing), Ok(None));
}

#[test]
fn loading_a_present_entry_yields_the_token() {
    let o = LoadOutcome::Found("tok".to_string());
    assert_eq!(load_result(o), Ok(Some("tok".to_string())));
}

#[test]
fn load_failures_propagate_as_messages() {
    let o = LoadOutcome::Failed("store locked".to_string());
    assert_eq!(load_result(o), Err("store locked".to_string()));
}

#[test]
fn clearing_a_missing_entry_succeeds() {
    assert_eq!(clear_result(ClearOutcome::Missing), Ok(()));
}

#[test]
fn clearing_a_present_entry_succeeds() {
    assert_eq!(clear_result(ClearOutcome::Removed), Ok(()));
}

#[test]
fn clear_failures_propagate_as_messages() {
    let o = ClearOutcome::Failed("store locked".to_string());
    assert_eq!(clear_result(o), Err("store locked".to_string()));
}
