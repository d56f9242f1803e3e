use pasty::entry::{EntryStore, Kind, StoreError};
use pasty::handler::{
    create_or_update, delete_by_id, fetch, fetch_stat, index_response, post_with_random_id,
    DeleteOutcome, FetchOutcome, IndexOutcome, PostOutcome, StatOutcome,
};

#[test]
fn round_trip_plain() {
    let mut store = EntryStore::new();
    let r = create_or_update(&mut store, "abc", Some("plain"), "pw", "", "", "hello");
    assert_eq!(r, PostOutcome::Created);
    match fetch(&mut store, "abc") {
        FetchOutcome::Text(s) => assert_eq!(s, "hello"),
        other => panic!("expected text, got {:?}", other),
    }
    assert_eq!(fetch_stat(&store, "abc"), StatOutcome::Count(1));
}

#[test]
fn round_trip_link() {
    let mut store = EntryStore::new();
    let r = create_or_update(
        &mut store,
        "lnk",
        Some("link"),
        "pw",
        "",
        "",
        "https://example.com",
    );
    assert_eq!(r, PostOutcome::Created);
    match fetch(&mut store, "lnk") {
        FetchOutcome::Redirect(s) => assert_eq!(s, "https://example.com"),
        other => panic!("expected redirect, got {:?}", other),
    }
    assert_eq!(fetch_stat(&store, "lnk"), StatOutcome::Count(1));
}

#[test]
fn kind_defaults_to_link() {
    let mut store = EntryStore::new();
    let r = create_or_update(&mut store, "d", None, "pw", "", "", "https://example.com/x");
    assert_eq!(r, PostOutcome::Created);
    match fetch(&mut store, "d") {
        FetchOutcome::Redirect(s) => assert_eq!(s, "https://example.com/x"),
        other => panic!("expected redirect, got {:?}", other),
    }
}

#[test]
fn idempotent_counting() {
    let mut store = EntryStore::new();
    let r = create_or_update(&mut store, "n", Some("plain"), "pw", "", "", "text");
    assert_eq!(r, PostOutcome::Created);
    assert_eq!(fetch_stat(&store, "n"), StatOutcome::Count(0));
    for _ in 0..5 {
        match fetch(&mut store, "n") {
            FetchOutcome::Text(s) => assert_eq!(s, "text"),
            other => panic!("expected text, got {:?}", other),
        }
    }
    assert_eq!(fetch_stat(&store, "n"), StatOutcome::Count(5));
}

#[test]
fn password_gate() {
    let mut store = EntryStore::new();
    let r = create_or_update(&mut store, "g", Some("plain"), "p1", "", "", "v1");
    assert_eq!(r, PostOutcome::Created);
    let r = create_or_update(&mut store, "g", Some("plain"), "wrong", "", "", "v2");
    assert_eq!(r, PostOutcome::PasswordMismatch);
    match fetch(&mut store, "g") {
        FetchOutcome::Text(s) => assert_eq!(s, "v1"),
        other => panic!("expected text, got {:?}", other),
    }
    assert_eq!(
        delete_by_id(&mut store, "g", "wrong"),
        DeleteOutcome::PasswordMismatch
    );
    match fetch(&mut store, "g") {
        FetchOutcome::Text(s) => assert_eq!(s, "v1"),
        other => panic!("expected text, got {:?}", other),
    }
}

#[test]
fn update_keeps_password_and_counter() {
    let mut store = EntryStore::new();
    assert_eq!(
        create_or_update(&mut store, "u", Some("plain"), "p1", "", "", "one"),
        PostOutcome::Created
    );
    fetch(&mut store, "u");
    fetch(&mut store, "u");
    assert_eq!(fetch_stat(&store, "u"), StatOutcome::Count(2));
    assert_eq!(
        create_or_update(&mut store, "u", Some("plain"), "p1", "", "", "two"),
        PostOutcome::Updated
    );
    assert_eq!(fetch_stat(&store, "u"), StatOutcome::Count(2));
    match fetch(&mut store, "u") {
        FetchOutcome::Text(s) => assert_eq!(s, "two"),
        other => panic!("expected text, got {:?}", other),
    }
    // The password survives the update: the original one still deletes.
    assert_eq!(delete_by_id(&mut store, "u", "p1"), DeleteOutcome::Deleted);
}

#[test]
fn type_validation_rejects_non_url() {
    let mut store = EntryStore::new();
    let r = create_or_update(&mut store, "t", Some("link"), "pw", "", "", "not a url");
    assert_eq!(r, PostOutcome::InvalidUrl);
    assert!(!store.has_entry("t"));
    match fetch(&mut store, "t") {
        FetchOutcome::Missing => {}
        other => panic!("expected missing, got {:?}", other),
    }
}

#[test]
fn unsupported_type_rejected() {
    let mut store = EntryStore::new();
    let r = create_or_update(&mut store, "t", Some("other"), "pw", "", "", "x");
    assert_eq!(r, PostOutcome::UnsupportedType);
    assert!(!store.has_entry("t"));
}

#[test]
fn full_deletion() {
    let mut store = EntryStore::new();
    assert_eq!(
        create_or_update(&mut store, "z", Some("plain"), "p1", "", "", "v"),
        PostOutcome::Created
    );
    fetch(&mut store, "z");
    assert_eq!(delete_by_id(&mut store, "z", "p1"), DeleteOutcome::Deleted);
    assert!(!store.has_entry("z"));
    match fetch(&mut store, "z") {
        FetchOutcome::Missing => {}
        other => panic!("expected missing, got {:?}", other),
    }
    assert_eq!(fetch_stat(&store, "z"), StatOutcome::Missing);
    // A fresh creation under the erased identifier starts over.
    assert_eq!(
        create_or_update(&mut store, "z", Some("plain"), "p2", "", "", "w"),
        PostOutcome::Created
    );
    assert_eq!(fetch_stat(&store, "z"), StatOutcome::Count(0));
}

#[test]
fn concrete_scenario() {
    let mut store = EntryStore::new();
    assert_eq!(
        create_or_update(&mut store, "abc", Some("link"), "p1", "", "", "https://example.com"),
        PostOutcome::Created
    );
    match fetch(&mut store, "abc") {
        FetchOutcome::Redirect(s) => assert_eq!(s, "https://example.com"),
        other => panic!("expected redirect, got {:?}", other),
    }
    assert_eq!(fetch_stat(&store, "abc"), StatOutcome::Count(1));
    assert_eq!(
        create_or_update(&mut store, "abc", Some("plain"), "wrong", "", "", "hello"),
        PostOutcome::PasswordMismatch
    );
    match fetch(&mut store, "abc") {
        FetchOutcome::Redirect(s) => assert_eq!(s, "https://example.com"),
        other => panic!("expected redirect, got {:?}", other),
    }
    assert_eq!(
        create_or_update(&mut store, "abc", Some("plain"), "p1", "", "", "hello"),
        PostOutcome::Updated
    );
    assert_eq!(fetch_stat(&store, "abc"), StatOutcome::Count(2));
    match fetch(&mut store, "abc") {
        FetchOutcome::Text(s) => assert_eq!(s, "hello"),
        other => panic!("expected text, got {:?}", other),
    }
    assert_eq!(delete_by_id(&mut store, "abc", "p1"), DeleteOutcome::Deleted);
    match fetch(&mut store, "abc") {
        FetchOutcome::Missing => {}
        other => panic!("expected missing, got {:?}", other),
    }
}

#[test]
fn empty_id_or_password_rejected() {
    let mut store = EntryStore::new();
    assert_eq!(
        create_or_update(&mut store, "", Some("plain"), "pw", "", "", "v"),
        PostOutcome::MissingParam
    );
    assert_eq!(
        create_or_update(&mut store, "x", Some("plain"), "", "", "", "v"),
        PostOutcome::MissingParam
    );
    assert_eq!(
        create_or_update(&mut store, "", Some("plain"), "", "", "", "v"),
        PostOutcome::MissingParam
    );
    assert_eq!(
        create_or_update(&mut store, "x", Some(""), "pw", "", "", "v"),
        PostOutcome::MissingParam
    );
    assert!(!store.has_entry("x"));
    assert!(!store.has_entry(""));
}

#[test]
fn access_token_gate() {
    let mut store = EntryStore::new();
    assert_eq!(
        create_or_update(&mut store, "a", Some("plain"), "pw", "", "s3cret", "v"),
        PostOutcome::AccessDenied
    );
    assert!(!store.has_entry("a"));
    // The token is checked before anything else: even an empty id is
    // answered with the access failure.
    assert_eq!(
        create_or_update(&mut store, "", Some("plain"), "", "nope", "s3cret", "v"),
        PostOutcome::AccessDenied
    );
    assert_eq!(
        create_or_update(&mut store, "a", Some("plain"), "pw", "s3cret", "s3cret", "v"),
        PostOutcome::Created
    );
}

#[test]
fn random_id_has_requested_length() {
    let mut store = EntryStore::new();
    let (id, r) = post_with_random_id(&mut store, 12, Some("plain"), "pw", "", "", "v");
    assert_eq!(r, PostOutcome::Created);
    assert_eq!(id.chars().count(), 12);
    assert!(store.has_entry(&id));
    match fetch(&mut store, &id) {
        FetchOutcome::Text(s) => assert_eq!(s, "v"),
        other => panic!("expected text, got {:?}", other),
    }
}

#[test]
fn store_error_cases() {
    let mut store = EntryStore::new();
    assert_eq!(store.create("e", Kind::Plain, "v", "p"), Ok(()));
    assert_eq!(
        store.create("e", Kind::Plain, "v2", "p2"),
        Err(StoreError::AlreadyExists)
    );
    assert_eq!(
        store.update("missing", Kind::Plain, "v", "p"),
        Err(StoreError::NotFound)
    );
    assert_eq!(store.delete("missing", "p"), Err(StoreError::NotFound));
    assert_eq!(
        store.update("e", Kind::Plain, "v2", "bad"),
        Err(StoreError::WrongPassword)
    );
    assert_eq!(store.delete("e", "bad"), Err(StoreError::WrongPassword));
    assert!(store.read_and_bump("missing").is_err());
    assert_eq!(store.read_stat("missing"), Err(StoreError::NotFound));
    match store.read_and_bump("e") {
        Ok((k, c)) => {
            assert_eq!(k, Kind::Plain);
            assert_eq!(c, "v");
        }
        Err(e) => panic!("expected content, got {:?}", e),
    }
}

#[test]
fn index_configuration() {
    match index_response("https://example.com", "welcome") {
        IndexOutcome::Redirect(s) => assert_eq!(s, "https://example.com"),
        other => panic!("expected redirect, got {:?}", other),
    }
    match index_response("", "welcome") {
        IndexOutcome::Text(s) => assert_eq!(s, "welcome"),
        other => panic!("expected text, got {:?}", other),
    }
}
