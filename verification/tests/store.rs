use authcore::errors::DataError;
use authcore::record::{Attr, Field, Record};
use authcore::store::{EntityStore, Index};

fn rec(key: &str, pairs: Vec<(&str, Attr)>) -> Record {
    let mut fields = vec![Field { name: "PK".to_string(), value: Attr::S(key.to_string()) }];
    for (name, value) in pairs {
        fields.push(Field { name: name.to_string(), value });
    }
    Record { fields }
}

#[test]
fn put_then_get_returns_the_row() {
    let mut store = EntityStore::new();
    store.put("USER#1".to_string(), rec("USER#1", vec![("a", Attr::S("x".to_string()))]));
    let r = store.get("USER#1").unwrap();
    match r.get_attr("a") {
        Some(Attr::S(s)) => assert_eq!(s, "x"),
        _ => panic!("attribute a missing"),
    }
    assert!(store.get("USER#2").is_none());
}

#[test]
fn put_overwrites_without_error() {
    let mut store = EntityStore::new();
    store.put("K#1".to_string(), rec("K#1", vec![("a", Attr::S("x".to_string()))]));
    store.put("K#1".to_string(), rec("K#1", vec![("a", Attr::S("y".to_string()))]));
    match store.get("K#1").unwrap().get_attr("a") {
        Some(Attr::S(s)) => assert_eq!(s, "y"),
        _ => panic!("attribute a missing"),
    }
}

#[test]
fn delete_reports_not_found_exactly_when_absent() {
    let mut store = EntityStore::new();
    store.put("K#1".to_string(), rec("K#1", vec![]));
    assert_eq!(store.delete("K#1"), Ok(()));
    assert!(store.get("K#1").is_none());
    assert_eq!(store.delete("K#1"), Err(DataError::NotFound));
}

#[test]
fn secondary_index_finds_live_rows_only() {
    let mut store = EntityStore::new();
    store.put(
        "USER#1".to_string(),
        rec("USER#1", vec![("GSI1PK", Attr::S("EMAIL#a@b".to_string()))]),
    );
    assert!(store.get_by_index(Index::Gsi1, "EMAIL#a@b").is_some());
    assert!(store.get_by_index(Index::Gsi1, "EMAIL#other").is_none());
    assert!(store.get_by_index(Index::Gsi2, "EMAIL#a@b").is_none());
    store.delete("USER#1").unwrap();
    assert!(store.get_by_index(Index::Gsi1, "EMAIL#a@b").is_none());
}

#[test]
fn get_attr_takes_first_match() {
    let r = rec("K#1", vec![
        ("dup", Attr::S("first".to_string())),
        ("dup", Attr::S("second".to_string())),
    ]);
    match r.get_attr("dup") {
        Some(Attr::S(s)) => assert_eq!(s, "first"),
        _ => panic!("attribute dup missing"),
    }
    assert!(r.get_attr("absent").is_none());
}
