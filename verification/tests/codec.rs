use authcore::errors::DataError;
use authcore::keys::{decode_key, encode_key, split_at_hash, Tag};

#[test]
fn encode_builds_tagged_key() {
    assert_eq!(encode_key(Tag::User, "abc"), "USER#abc");
    assert_eq!(encode_key(Tag::Email, "a@b.c"), "EMAIL#a@b.c");
    assert_eq!(encode_key(Tag::Session, "s1"), "SESSION#s1");
    assert_eq!(encode_key(Tag::Org, "o1"), "ORG#o1");
    assert_eq!(encode_key(Tag::Team, "t1"), "TEAM#t1");
    assert_eq!(encode_key(Tag::UserType, "admin"), "USERTYPE#admin");
}

#[test]
fn decode_round_trips_every_tag() {
    let cases = vec![
        (Tag::User, "u-1"),
        (Tag::Email, "who@example.com"),
        (Tag::Session, "s-2"),
        (Tag::Org, "o-3"),
        (Tag::Team, "t-4"),
        (Tag::UserType, "standard"),
    ];
    for (tag, id) in cases {
        let key = encode_key(tag, id);
        let (t, d) = decode_key(&key).unwrap();
        assert_eq!(t, tag);
        assert_eq!(d, id);
    }
}

#[test]
fn decode_round_trips_id_with_separator() {
    let key = encode_key(Tag::Email, "a#b#c");
    let (t, d) = decode_key(&key).unwrap();
    assert_eq!(t, Tag::Email);
    assert_eq!(d, "a#b#c");
}

#[test]
fn decode_rejects_key_without_separator() {
    assert_eq!(decode_key("USERabc"), Err(DataError::MalformedKey));
    assert_eq!(decode_key(""), Err(DataError::MalformedKey));
}

#[test]
fn decode_rejects_unknown_tag() {
    assert_eq!(decode_key("BOGUS#abc"), Err(DataError::MalformedKey));
    assert_eq!(decode_key("#abc"), Err(DataError::MalformedKey));
    assert_eq!(decode_key("user#abc"), Err(DataError::MalformedKey));
}

#[test]
fn split_at_hash_strips_through_first_separator() {
    assert_eq!(split_at_hash("USER#xyz"), "xyz");
    assert_eq!(split_at_hash("EMAIL#a#b"), "a#b");
    assert_eq!(split_at_hash("#only"), "only");
}
