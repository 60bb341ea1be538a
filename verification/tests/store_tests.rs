use authlink::errors::AuthError;
use authlink::store::AuthStatus;
use authlink::store::AuthStore;

const NOW: u64 = 1_700_000_000;

#[test]
fn recent_pending_request_is_found() {
    let mut store = AuthStore::new();
    let id = store.create_request("abc123", NOW - 600);
    assert_eq!(store.find_pending("abc123", NOW), Ok(id));
}

#[test]
fn stale_pending_request_is_not_found() {
    let mut store = AuthStore::new();
    store.create_request("abc123", NOW - 10_800);
    assert_eq!(store.find_pending("abc123", NOW), Err(AuthError::NotFoundOrExpired));
}

#[test]
fn freshness_window_boundary_is_inclusive() {
    let mut store = AuthStore::new();
    let id = store.create_request("edge", NOW - 7200);
    assert_eq!(store.find_pending("edge", NOW), Ok(id));

    let mut late = AuthStore::new();
    late.create_request("edge", NOW - 7201);
    assert_eq!(late.find_pending("edge", NOW), Err(AuthError::NotFoundOrExpired));
}

#[test]
fn future_timestamp_counts_as_fresh() {
    let mut store = AuthStore::new();
    let id = store.create_request("early", NOW + 50);
    assert_eq!(store.find_pending("early", NOW), Ok(id));
}

#[test]
fn unknown_code_is_not_found() {
    let mut store = AuthStore::new();
    store.create_request("abc123", NOW);
    assert_eq!(store.find_pending("zzz", NOW), Err(AuthError::NotFoundOrExpired));
}

#[test]
fn empty_store_finds_nothing() {
    let store = AuthStore::new();
    assert_eq!(store.find_pending("abc123", NOW), Err(AuthError::NotFoundOrExpired));
}

#[test]
fn newest_duplicate_wins() {
    let mut store = AuthStore::new();
    store.create_request("dup", NOW - 3000);
    let newer = store.create_request("dup", NOW - 100);
    store.create_request("dup", NOW - 2000);
    assert_eq!(store.find_pending("dup", NOW), Ok(newer));
}

#[test]
fn equal_timestamps_resolve_to_latest_created() {
    let mut store = AuthStore::new();
    store.create_request("tie", NOW - 100);
    let second = store.create_request("tie", NOW - 100);
    assert_eq!(store.find_pending("tie", NOW), Ok(second));
}

#[test]
fn approve_round_trip_reads_back_exactly() {
    let mut store = AuthStore::new();
    let id = store.create_request("abc123", NOW - 600);
    let approved_at = NOW - 30;
    assert_eq!(store.approve(id, "provider-x", "999", "alice", None, approved_at), Ok(id));

    let req = store.get_request(id).expect("request must still be there");
    assert_eq!(req.id, id);
    assert_eq!(req.status, AuthStatus::Approved);
    assert_eq!(req.access_code.as_str(), "abc123");
    assert_eq!(req.updated_at, approved_at);
    assert_eq!(req.authentication_method.as_deref(), Some("provider-x"));
    assert_eq!(req.external_uid.as_deref(), Some("999"));
    assert_eq!(req.external_username.as_deref(), Some("alice"));
    assert_eq!(req.internal_account_id, None);
}

#[test]
fn approve_with_link_writes_it() {
    let mut store = AuthStore::new();
    let id = store.create_request("abc123", NOW);
    assert_eq!(store.approve(id, "provider-x", "999", "alice", Some("ckey42"), NOW), Ok(id));
    let req = store.get_request(id).unwrap();
    assert_eq!(req.internal_account_id.as_deref(), Some("ckey42"));
}

#[test]
fn approve_without_link_leaves_it_unset() {
    let mut store = AuthStore::new();
    let id = store.create_request("abc123", NOW);
    assert_eq!(store.approve(id, "provider-x", "999", "alice", None, NOW), Ok(id));
    let req = store.get_request(id).unwrap();
    assert_eq!(req.internal_account_id, None);
}

#[test]
fn approve_unknown_id_fails() {
    let mut store = AuthStore::new();
    store.create_request("abc123", NOW);
    assert_eq!(
        store.approve(77, "provider-x", "999", "alice", None, NOW),
        Err(AuthError::NotFoundOrExpired)
    );
}

#[test]
fn second_approval_is_rejected_and_changes_nothing() {
    let mut store = AuthStore::new();
    let id = store.create_request("abc123", NOW);
    assert_eq!(store.approve(id, "provider-x", "999", "alice", Some("ckey42"), NOW), Ok(id));
    assert_eq!(
        store.approve(id, "provider-y", "111", "mallory", None, NOW + 5),
        Err(AuthError::NotFoundOrExpired)
    );

    let req = store.get_request(id).unwrap();
    assert_eq!(req.authentication_method.as_deref(), Some("provider-x"));
    assert_eq!(req.external_uid.as_deref(), Some("999"));
    assert_eq!(req.external_username.as_deref(), Some("alice"));
    assert_eq!(req.internal_account_id.as_deref(), Some("ckey42"));
    assert_eq!(req.updated_at, NOW);
}

#[test]
fn approved_request_is_no_longer_found() {
    let mut store = AuthStore::new();
    let id = store.create_request("abc123", NOW);
    store.approve(id, "provider-x", "999", "alice", None, NOW).unwrap();
    assert_eq!(store.find_pending("abc123", NOW), Err(AuthError::NotFoundOrExpired));
}

#[test]
fn get_request_on_unknown_id_is_none() {
    let store = AuthStore::new();
    assert!(store.get_request(5).is_none());
}
