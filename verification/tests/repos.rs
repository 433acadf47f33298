use authcore::errors::DataError;
use authcore::id::IdGen;
use authcore::org;
use authcore::org::Org;
use authcore::record::{Attr, Field, Record};
use authcore::store::EntityStore;
use authcore::team;
use authcore::team::Team;
use authcore::user;
use authcore::user::User;

#[test]
fn fresh_ids_are_fixed_length_and_distinct() {
    let mut ids = IdGen::new();
    let a = ids.fresh_id();
    let b = ids.fresh_id();
    assert_eq!(a.len(), 30);
    assert_eq!(b.len(), 30);
    assert_ne!(a, b);
    assert!(a.chars().all(|c| c.is_ascii_digit()));
    assert_eq!(a, "0".repeat(30));
    assert_eq!(b, format!("{}1", "0".repeat(29)));
}

#[test]
fn create_user_then_get_by_email_returns_same_user() {
    let mut store = EntityStore::new();
    let mut ids = IdGen::new();
    let input = user::Create {
        email: "a@b.c".to_string(),
        first_name: "Ada".to_string(),
        last_name: "L".to_string(),
        user_type: "standard".to_string(),
        hash: "h".to_string(),
    };
    let created = User::create(&mut store, &mut ids, &input);
    assert!(created.is_active);
    let found = User::get_by_email(&store, "a@b.c").unwrap();
    assert_eq!(found.id, created.id);
    assert_eq!(found.email, "a@b.c");
    assert_eq!(found.first_name, "Ada");
    assert_eq!(found.last_name, "L");
    assert_eq!(found.user_type, "standard");
    assert_eq!(found.hash, "h");
}

#[test]
fn get_user_by_id_and_not_found() {
    let mut store = EntityStore::new();
    let mut ids = IdGen::new();
    let input = user::Create {
        email: "a@b.c".to_string(),
        first_name: "Ada".to_string(),
        last_name: "L".to_string(),
        user_type: "standard".to_string(),
        hash: "h".to_string(),
    };
    let created = User::create(&mut store, &mut ids, &input);
    let found = User::from_id(&store, &created.id).unwrap();
    assert_eq!(found.id, created.id);
    assert_eq!(User::from_id(&store, "missing").unwrap_err(), DataError::NotFound);
    assert_eq!(
        User::get_by_email(&store, "other@b.c").unwrap_err(),
        DataError::NotFound
    );
}

#[test]
fn deleting_a_user_removes_its_primary_row() {
    let mut store = EntityStore::new();
    let mut ids = IdGen::new();
    let input = user::Create {
        email: "a@b.c".to_string(),
        first_name: "Ada".to_string(),
        last_name: "L".to_string(),
        user_type: "standard".to_string(),
        hash: "h".to_string(),
    };
    let created = User::create(&mut store, &mut ids, &input);
    assert_eq!(User::delete(&mut store, &created.id), Ok(()));
    assert_eq!(User::from_id(&store, &created.id).unwrap_err(), DataError::NotFound);
    assert_eq!(User::delete(&mut store, &created.id), Err(DataError::NotFound));
}

#[test]
fn corrupt_user_row_is_reported_not_defaulted() {
    let rec = Record {
        fields: vec![Field { name: "PK".to_string(), value: Attr::S("USER#1".to_string()) }],
    };
    assert_eq!(User::from_record(&rec).unwrap_err(), DataError::CorruptRecord);
    let bad_key = Record {
        fields: vec![Field { name: "PK".to_string(), value: Attr::S("no-separator".to_string()) }],
    };
    assert_eq!(User::from_record(&bad_key).unwrap_err(), DataError::MalformedKey);
    let wrong_tag = Record {
        fields: vec![Field { name: "PK".to_string(), value: Attr::S("ORG#1".to_string()) }],
    };
    assert_eq!(User::from_record(&wrong_tag).unwrap_err(), DataError::CorruptRecord);
}

#[test]
fn org_create_read_delete() {
    let mut store = EntityStore::new();
    let mut ids = IdGen::new();
    let created = Org::create(
        &mut store,
        &mut ids,
        &org::Create { id: String::new(), name: "acme".to_string(), active: false },
    );
    assert!(created.active);
    assert_eq!(created.name, "acme");
    let found = Org::from_id(&store, &created.id).unwrap();
    assert_eq!(found.id, created.id);
    assert_eq!(found.name, "acme");
    assert!(found.active);
    assert_eq!(Org::delete(&mut store, &created.id), Ok(()));
    assert_eq!(Org::from_id(&store, &created.id).unwrap_err(), DataError::NotFound);
    assert_eq!(Org::delete(&mut store, &created.id), Err(DataError::NotFound));
}

#[test]
fn team_create_and_read() {
    let mut store = EntityStore::new();
    let mut ids = IdGen::new();
    let created = Team::create(&mut store, &mut ids, &team::Create { name: "blue".to_string() });
    assert!(created.active);
    let found = Team::from_id(&store, &created.id).unwrap();
    assert_eq!(found.name, "blue");
    assert_eq!(Team::from_id(&store, "missing").unwrap_err(), DataError::NotFound);
}
