//! Key codec: entity identities are stored under composite keys of the
//! form `TAG#id`. Encoding is injective per tag and decoding strips the
//! tag, so the storage format never leaks past this module.

use vstd::prelude::*;
use crate::errors::DataError;
use crate::text::find_char;
use crate::text::str_eq;

verus! {

/// The entity axes that the store distinguishes by key prefix.
#[derive(Clone, Copy, Debug, PartialEq, Eq, Structural)]
pub enum Tag {
    User,
    Email,
    Session,
    Org,
    Team,
    UserType,
}

/// The fixed prefix that names each tag in a stored key.
pub open spec fn tag_chars(t: Tag) -> Seq<char> {
    match t {
        Tag::User => "USER"@,
        Tag::Email => "EMAIL"@,
        Tag::Session => "SESSION"@,
        Tag::Org => "ORG"@,
        Tag::Team => "TEAM"@,
        Tag::UserType => "USERTYPE"@,
    }
}

/// The tag whose prefix is exactly `pre`, if any.
pub open spec fn tag_of(pre: Seq<char>) -> Option<Tag> {
    if pre == "USER"@ {
        Some(Tag::User)
    } else if pre == "EMAIL"@ {
        Some(Tag::Email)
    } else if pre == "SESSION"@ {
        Some(Tag::Session)
    } else if pre == "ORG"@ {
        Some(Tag::Org)
    } else if pre == "TEAM"@ {
        Some(Tag::Team)
    } else if pre == "USERTYPE"@ {
        Some(Tag::UserType)
    } else {
        None
    }
}

/// A key encodes `id` under tag `t`.
pub open spec fn encode_spec(t: Tag, id: Seq<char>) -> Seq<char> {
    tag_chars(t) + seq!['#'] + id
}

/// `s` contains the separator character.
pub open spec fn has_hash(s: Seq<char>) -> bool {
    exists|i: int| 0 <= i < s.len() && s[i] == '#'
}

/// Index of the first separator in `s` (meaningful when `has_hash(s)`).
pub open spec fn first_hash(s: Seq<char>) -> int
    decreases s.len(),
{
    if s.len() == 0 {
        0
    } else if s[0] == '#' {
        0
    } else {
        1 + first_hash(s.drop_first())
    }
}

/// A position that holds the first separator determines `first_hash`.
pub proof fn lemma_first_hash_is(s: Seq<char>, i: int)
    requires
        0 <= i < s.len(),
        s[i] == '#',
        forall|j: int| 0 <= j < i ==> s[j] != '#',
    ensures
        first_hash(s) == i,
        has_hash(s),
    decreases i,
{
    if i == 0 {
    } else {
        assert(s[0] != '#');
        assert(s.drop_first()[i - 1] == '#');
        assert(forall|j: int| 0 <= j < i - 1 ==> s.drop_first()[j] == s[j + 1] && s[j + 1] != '#');
        lemma_first_hash_is(s.drop_first(), i - 1);
    }
}

/// What `decode_key` returns: the tag named by the prefix before the
/// first separator, and everything after that separator.
pub open spec fn decode_spec(key: Seq<char>) -> Option<(Tag, Seq<char>)> {
    if has_hash(key) {
        match tag_of(key.subrange(0, first_hash(key))) {
            Some(t) => Some((t, key.subrange(first_hash(key) + 1, key.len() as int))),
            None => None,
        }
    } else {
        None
    }
}

/// No tag prefix contains the separator, and each prefix names its tag.
pub proof fn lemma_tag_chars_facts(t: Tag)
    ensures
        tag_of(tag_chars(t)) == Some(t),
        1 <= tag_chars(t).len(),
        forall|j: int| 0 <= j < tag_chars(t).len() ==> tag_chars(t)[j] != '#',
{
    reveal_strlit("USER");
    reveal_strlit("EMAIL");
    reveal_strlit("SESSION");
    reveal_strlit("ORG");
    reveal_strlit("TEAM");
    reveal_strlit("USERTYPE");
    match t {
        Tag::User => {
        },
        Tag::Email => {
            assert("EMAIL"@.len() != "USER"@.len());
        },
        Tag::Session => {
            assert("SESSION"@.len() != "USER"@.len());
            assert("SESSION"@.len() != "EMAIL"@.len());
        },
        Tag::Org => {
            assert("ORG"@.len() != "USER"@.len());
            assert("ORG"@.len() != "EMAIL"@.len());
            assert("ORG"@.len() != "SESSION"@.len());
        },
        Tag::Team => {
            assert("TEAM"@[0] != "USER"@[0]);
            assert("TEAM"@.len() != "EMAIL"@.len());
            assert("TEAM"@.len() != "SESSION"@.len());
            assert("TEAM"@.len() != "ORG"@.len());
        },
        Tag::UserType => {
            assert("USERTYPE"@.len() != "USER"@.len());
            assert("USERTYPE"@.len() != "EMAIL"@.len());
            assert("USERTYPE"@.len() != "SESSION"@.len());
            assert("USERTYPE"@.len() != "ORG"@.len());
            assert("USERTYPE"@.len() != "TEAM"@.len());
        },
    }
}

/// Round trip: decoding an encoded key recovers the tag and the id.
/// This holds for every id, including ids that contain the separator,
/// because decoding splits at the first separator, which the encoder
/// placed right after the (separator-free) tag prefix.
pub proof fn lemma_decode_encode(t: Tag, id: Seq<char>)
    ensures
        decode_spec(encode_spec(t, id)) == Some((t, id)),
{
    let pre = tag_chars(t);
    let key = encode_spec(t, id);
    lemma_tag_chars_facts(t);
    assert(key[pre.len() as int] == '#');
    assert(forall|j: int| 0 <= j < pre.len() ==> key[j] == pre[j]);
    lemma_first_hash_is(key, pre.len() as int);
    assert(key.subrange(0, pre.len() as int) =~= pre);
    assert(key.subrange(pre.len() as int + 1, key.len() as int) =~= id);
}

/// Encoding is injective per tag: distinct ids never collide under the
/// same tag.
pub proof fn lemma_encode_injective(t: Tag, id1: Seq<char>, id2: Seq<char>)
    ensures
        encode_spec(t, id1) == encode_spec(t, id2) ==> id1 == id2,
{
    if encode_spec(t, id1) == encode_spec(t, id2) {
        lemma_decode_encode(t, id1);
        lemma_decode_encode(t, id2);
    }
}

/// The exec side of `tag_chars`.
pub fn tag_str(t: Tag) -> (r: &'static str)
    ensures
        r@ == tag_chars(t),
{
    match t {
        Tag::User => "USER",
        Tag::Email => "EMAIL",
        Tag::Session => "SESSION",
        Tag::Org => "ORG",
        Tag::Team => "TEAM",
        Tag::UserType => "USERTYPE",
    }
}

/// The exec side of `tag_of`.
fn tag_lookup(pre: &str) -> (r: Option<Tag>)
    ensures
        r == tag_of(pre@),
{
    if str_eq(pre, "USER") {
        Some(Tag::User)
    } else if str_eq(pre, "EMAIL") {
        Some(Tag::Email)
    } else if str_eq(pre, "SESSION") {
        Some(Tag::Session)
    } else if str_eq(pre, "ORG") {
        Some(Tag::Org)
    } else if str_eq(pre, "TEAM") {
        Some(Tag::Team)
    } else if str_eq(pre, "USERTYPE") {
        Some(Tag::UserType)
    } else {
        None
    }
}

/// Encode an identity as a stored key, `TAG#id`.
pub fn encode_key(t: Tag, id: &str) -> (r: String)
    ensures
        r@ == encode_spec(t, id@),
{
    let mut s = String::from_str(tag_str(t));
    s.append("#");
    s.append(id);
    proof {
        reveal_strlit("#");
        assert("#"@ =~= seq!['#']);
        assert(s@ =~= encode_spec(t, id@));
    }
    s
}

/// Decode a stored key into its tag and the raw id, failing with
/// `MalformedKey` when the key has no separator or an unknown prefix.
pub fn decode_key(key: &str) -> (r: Result<(Tag, String), DataError>)
    ensures
        match r {
            Ok((t, id)) => decode_spec(key@) == Some((t, id@)),
            Err(e) => decode_spec(key@) is None && e == DataError::MalformedKey,
        },
{
    match find_char(key, '#') {
        None => Err(DataError::MalformedKey),
        Some(i) => {
            proof {
                lemma_first_hash_is(key@, i as int);
            }
            let len = key.unicode_len();
            let pre = key.substring_char(0, i);
            let id = key.substring_char(i + 1, len);
            match tag_lookup(pre) {
                Some(t) => Ok((t, String::from_str(id))),
                None => Err(DataError::MalformedKey),
            }
        },
    }
}

/// Strip everything up to and including the first separator: the raw
/// id of a stored key, whatever its tag.
pub fn split_at_hash(input: &str) -> (r: &str)
    requires
        has_hash(input@),
    ensures
        r@ == input@.subrange(first_hash(input@) + 1, input@.len() as int),
{
    let i = find_char(input, '#').unwrap();
    proof {
        lemma_first_hash_is(input@, i as int);
    }
    let len = input.unicode_len();
    input.substring_char(i + 1, len)
}

} // verus!
