use authcore::errors::DataError;
use authcore::id::IdGen;
use authcore::record::{Attr, Field, Record};
use authcore::session::Session;
use authcore::store::EntityStore;

#[test]
fn anonymous_session_round_trips_through_the_store() {
    let mut store = EntityStore::new();
    let mut ids = IdGen::new();
    let created = Session::create(&mut store, &mut ids, None);
    assert!(created.user_id.is_none());
    let resolved = Session::from_id(&store, &created.id).unwrap();
    assert_eq!(resolved.id, created.id);
    assert!(resolved.user_id.is_none());
    assert_eq!(resolved.csrf_token, created.csrf_token);
    assert_ne!(created.id, created.csrf_token);
}

#[test]
fn bound_session_keeps_its_user_id() {
    let mut store = EntityStore::new();
    let mut ids = IdGen::new();
    let created = Session::create(&mut store, &mut ids, Some("u-1".to_string()));
    let resolved = Session::from_id(&store, &created.id).unwrap();
    assert_eq!(resolved.user_id.as_deref(), Some("u-1"));
}

#[test]
fn resolving_an_unknown_session_is_not_found() {
    let store = EntityStore::new();
    assert_eq!(Session::from_id(&store, "nope").unwrap_err(), DataError::NotFound);
}

#[test]
fn corrupt_session_rows_are_reported() {
    let missing_csrf = Record {
        fields: vec![Field { name: "PK".to_string(), value: Attr::S("SESSION#1".to_string()) }],
    };
    assert_eq!(Session::from_record(&missing_csrf).unwrap_err(), DataError::CorruptRecord);
    let bool_user = Record {
        fields: vec![
            Field { name: "PK".to_string(), value: Attr::S("SESSION#1".to_string()) },
            Field { name: "GSI1PK".to_string(), value: Attr::Bool(true) },
            Field { name: "csrf_token".to_string(), value: Attr::S("c".to_string()) },
        ],
    };
    assert_eq!(Session::from_record(&bool_user).unwrap_err(), DataError::CorruptRecord);
    let bad_key = Record {
        fields: vec![
            Field { name: "PK".to_string(), value: Attr::S("SESSIONx1".to_string()) },
            Field { name: "csrf_token".to_string(), value: Attr::S("c".to_string()) },
        ],
    };
    assert_eq!(Session::from_record(&bad_key).unwrap_err(), DataError::MalformedKey);
}
