//! Users and the email-lookup rows that make reverse lookup by email
//! possible. A user is stored as its primary row under `USER#<id>`;
//! creation also stores a denormalized `EMAIL#<email>` row carrying the
//! user id, because the store's secondary index cannot serve the full
//! primary row.

use vstd::prelude::*;
use crate::errors::DataError;
use crate::id::IdGen;
use crate::keys::{Tag, decode_spec, encode_spec, encode_key, decode_key, lemma_decode_encode};
use crate::record::{Attr, AttrV, Field, FieldV, Record, rec_get, rec_get_from, lemma_rec_get_skip};
use crate::store::EntityStore;

verus! {

/// Spec-level user.
#[verifier::ext_equal]
pub struct UserV {
    pub id: Seq<char>,
    pub email: Seq<char>,
    pub first_name: Seq<char>,
    pub last_name: Seq<char>,
    pub is_active: bool,
    pub user_type: Seq<char>,
    pub hash: Seq<char>,
}

/// The primary identity: looked up by id or, through the email-lookup
/// row, by email.
#[derive(Debug)]
pub struct User {
    pub id: String,
    pub email: String,
    pub first_name: String,
    pub last_name: String,
    pub is_active: bool,
    pub user_type: String,
    pub hash: String,
}

impl View for User {
    type V = UserV;

    open spec fn view(&self) -> UserV {
        UserV {
            id: self.id@,
            email: self.email@,
            first_name: self.first_name@,
            last_name: self.last_name@,
            is_active: self.is_active,
            user_type: self.user_type@,
            hash: self.hash@,
        }
    }
}

impl Clone for User {
    fn clone(&self) -> (r: Self)
        ensures
            r@ == self@,
    {
        User {
            id: self.id.clone(),
            email: self.email.clone(),
            first_name: self.first_name.clone(),
            last_name: self.last_name.clone(),
            is_active: self.is_active,
            user_type: self.user_type.clone(),
            hash: self.hash.clone(),
        }
    }
}

/// Spec-level email-lookup row.
#[verifier::ext_equal]
pub struct EmailV {
    pub email: Seq<char>,
    pub user_id: Seq<char>,
}

/// The denormalized row mapping an email to the owning user id.
#[derive(Debug)]
pub struct Email {
    pub email: String,
    pub user_id: String,
}

impl View for Email {
    type V = EmailV;

    open spec fn view(&self) -> EmailV {
        EmailV { email: self.email@, user_id: self.user_id@ }
    }
}

/// Input to `User::create`.
pub struct Create {
    pub email: String,
    pub first_name: String,
    pub last_name: String,
    pub user_type: String,
    pub hash: String,
}

/// Primary key of a user row.
pub open spec fn user_key(id: Seq<char>) -> Seq<char> {
    encode_spec(Tag::User, id)
}

/// Primary key of an email-lookup row.
pub open spec fn email_key(email: Seq<char>) -> Seq<char> {
    encode_spec(Tag::Email, email)
}

/// The row a user is stored as.
pub open spec fn user_record_v(u: UserV) -> Seq<FieldV> {
    seq![
        FieldV { name: "PK"@, value: AttrV::S(encode_spec(Tag::User, u.id)) },
        FieldV { name: "SK"@, value: AttrV::S(encode_spec(Tag::User, u.id)) },
        FieldV { name: "GSI1PK"@, value: AttrV::S(encode_spec(Tag::Email, u.email)) },
        FieldV { name: "GSI1SK"@, value: AttrV::S(encode_spec(Tag::Email, u.email)) },
        FieldV { name: "GSI2PK"@, value: AttrV::S(encode_spec(Tag::UserType, u.user_type)) },
        FieldV { name: "GSI2SK"@, value: AttrV::S(encode_spec(Tag::UserType, u.user_type)) },
        FieldV { name: "first_name"@, value: AttrV::S(u.first_name) },
        FieldV { name: "last_name"@, value: AttrV::S(u.last_name) },
        FieldV { name: "user_type"@, value: AttrV::S(u.user_type) },
        FieldV { name: "is_active"@, value: AttrV::Bool(u.is_active) },
        FieldV { name: "hash"@, value: AttrV::S(u.hash) },
    ]
}

/// The user a row decodes to, if the row is well formed.
pub open spec fn user_of_record(r: Seq<FieldV>) -> Option<UserV> {
    match (
        rec_get(r, "PK"@),
        rec_get(r, "GSI1PK"@),
        rec_get(r, "first_name"@),
        rec_get(r, "last_name"@),
        rec_get(r, "user_type"@),
        rec_get(r, "is_active"@),
        rec_get(r, "hash"@),
    ) {
        (
            Some(AttrV::S(pk)),
            Some(AttrV::S(ek)),
            Some(AttrV::S(first_name)),
            Some(AttrV::S(last_name)),
            Some(AttrV::S(user_type)),
            Some(AttrV::Bool(is_active)),
            Some(AttrV::S(hash)),
        ) => match (decode_spec(pk), decode_spec(ek)) {
            (Some((Tag::User, id)), Some((Tag::Email, email))) => Some(
                UserV { id, email, first_name, last_name, is_active, user_type, hash },
            ),
            _ => None,
        },
        _ => None,
    }
}

/// The row an email-lookup entry is stored as.
pub open spec fn email_record_v(e: EmailV) -> Seq<FieldV> {
    seq![
        FieldV { name: "PK"@, value: AttrV::S(encode_spec(Tag::Email, e.email)) },
        FieldV { name: "SK"@, value: AttrV::S(encode_spec(Tag::Email, e.email)) },
        FieldV { name: "GSI1PK"@, value: AttrV::S(encode_spec(Tag::User, e.user_id)) },
        FieldV { name: "GSI1SK"@, value: AttrV::S(encode_spec(Tag::User, e.user_id)) },
    ]
}

/// The email-lookup entry a row decodes to, if well formed.
pub open spec fn email_of_record(r: Seq<FieldV>) -> Option<EmailV> {
    match (rec_get(r, "PK"@), rec_get(r, "GSI1PK"@)) {
        (Some(AttrV::S(pk)), Some(AttrV::S(uk))) => match (decode_spec(pk), decode_spec(uk)) {
            (Some((Tag::Email, email)), Some((Tag::User, user_id))) => Some(
                EmailV { email, user_id },
            ),
            _ => None,
        },
        _ => None,
    }
}

/// The user stored under `id`.
pub open spec fn user_at(m: Map<Seq<char>, Record>, id: Seq<char>) -> Option<UserV> {
    if m.contains_key(user_key(id)) {
        user_of_record(m[user_key(id)]@)
    } else {
        None
    }
}

/// The email-lookup entry stored under `email`.
pub open spec fn email_at(m: Map<Seq<char>, Record>, email: Seq<char>) -> Option<EmailV> {
    if m.contains_key(email_key(email)) {
        email_of_record(m[email_key(email)]@)
    } else {
        None
    }
}

/// The two-step email lookup: the email-lookup row first, then the
/// primary user row by the embedded user id.
pub open spec fn user_by_email_at(m: Map<Seq<char>, Record>, email: Seq<char>) -> Option<UserV> {
    match email_at(m, email) {
        Some(e) => user_at(m, e.user_id),
        None => None,
    }
}

/// A user row fails on a key that does not parse, checked in decode
/// order: the primary key first, then the email key. Every other
/// failure is a missing or wrong-shape attribute.
pub open spec fn user_key_malformed(r: Seq<FieldV>) -> bool {
    match rec_get(r, "PK"@) {
        Some(AttrV::S(pk)) => match decode_spec(pk) {
            None => true,
            Some((Tag::User, _)) => match rec_get(r, "GSI1PK"@) {
                Some(AttrV::S(ek)) => decode_spec(ek) is None,
                _ => false,
            },
            Some(_) => false,
        },
        _ => false,
    }
}

/// An email-lookup row fails on a key that does not parse, in decode
/// order: the email key first, then the user key.
pub open spec fn email_key_malformed(r: Seq<FieldV>) -> bool {
    match rec_get(r, "PK"@) {
        Some(AttrV::S(pk)) => match decode_spec(pk) {
            None => true,
            Some((Tag::Email, _)) => match rec_get(r, "GSI1PK"@) {
                Some(AttrV::S(uk)) => decode_spec(uk) is None,
                _ => false,
            },
            Some(_) => false,
        },
        _ => false,
    }
}

/// Decoding the row a user encodes to recovers the user.
pub proof fn lemma_user_record_roundtrip(u: UserV)
    ensures
        user_of_record(user_record_v(u)) == Some(u),
        rec_get(user_record_v(u), "PK"@) == Some(AttrV::S(encode_spec(Tag::User, u.id))),
        rec_get(user_record_v(u), "GSI1PK"@) == Some(AttrV::S(encode_spec(Tag::Email, u.email))),
        rec_get(user_record_v(u), "GSI2PK"@) == Some(
            AttrV::S(encode_spec(Tag::UserType, u.user_type)),
        ),
{
    let r = user_record_v(u);
    reveal_with_fuel(rec_get_from, 13);
    reveal_strlit("PK");
    reveal_strlit("SK");
    reveal_strlit("GSI1PK");
    reveal_strlit("GSI1SK");
    reveal_strlit("GSI2PK");
    reveal_strlit("GSI2SK");
    reveal_strlit("first_name");
    reveal_strlit("last_name");
    reveal_strlit("user_type");
    reveal_strlit("is_active");
    reveal_strlit("hash");
    assert("user_type"@[0] != "last_name"@[0]);
    assert("is_active"@[0] != "last_name"@[0]);
    assert("is_active"@[0] != "user_type"@[0]);
    assert("PK"@.len() == 2);
    assert("SK"@.len() == 2);
    assert("GSI1PK"@.len() == 6);
    assert("GSI1SK"@.len() == 6);
    assert("GSI2PK"@.len() == 6);
    assert("GSI2SK"@.len() == 6);
    assert("first_name"@.len() == 10);
    assert("last_name"@.len() == 9);
    assert("user_type"@.len() == 9);
    assert("is_active"@.len() == 9);
    assert("hash"@.len() == 4);
    assert("GSI1PK"@[4] != "GSI1SK"@[4]);
    assert("GSI2PK"@[4] != "GSI2SK"@[4]);
    assert("GSI1PK"@[3] != "GSI2SK"@[3]);
    assert("GSI1PK"@[3] != "GSI2PK"@[3]);
    assert("GSI1SK"@[3] != "GSI2SK"@[3]);
    assert("GSI1SK"@[3] != "GSI2PK"@[3]);
    assert("PK"@[0] != "SK"@[0]);
    assert(r.len() == 11);
    assert(r[0].name == "PK"@);
    assert(r[1].name == "SK"@);
    assert(r[2] == FieldV { name: "GSI1PK"@, value: AttrV::S(encode_spec(Tag::Email, u.email)) });
    assert(r[3].name == "GSI1SK"@);
    assert(r[4].name == "GSI2PK"@);
    assert(r[5].name == "GSI2SK"@);
    assert(r[6] == FieldV { name: "first_name"@, value: AttrV::S(u.first_name) });
    assert(r[7] == FieldV { name: "last_name"@, value: AttrV::S(u.last_name) });
    assert(r[8] == FieldV { name: "user_type"@, value: AttrV::S(u.user_type) });
    assert(r[9] == FieldV { name: "is_active"@, value: AttrV::Bool(u.is_active) });
    assert(r[10] == FieldV { name: "hash"@, value: AttrV::S(u.hash) });
    assert(rec_get(r, "PK"@) == Some(AttrV::S(encode_spec(Tag::User, u.id))));
    lemma_rec_get_skip(r, 2, "GSI1PK"@);
    assert(rec_get(r, "GSI1PK"@) == Some(AttrV::S(encode_spec(Tag::Email, u.email))));
    lemma_rec_get_skip(r, 4, "GSI2PK"@);
    assert(rec_get(r, "GSI2PK"@) == Some(AttrV::S(encode_spec(Tag::UserType, u.user_type))));
    lemma_rec_get_skip(r, 6, "first_name"@);
    assert(rec_get(r, "first_name"@) == Some(AttrV::S(u.first_name)));
    lemma_rec_get_skip(r, 7, "last_name"@);
    assert(rec_get(r, "last_name"@) == Some(AttrV::S(u.last_name)));
    lemma_rec_get_skip(r, 8, "user_type"@);
    assert(rec_get(r, "user_type"@) == Some(AttrV::S(u.user_type)));
    lemma_rec_get_skip(r, 9, "is_active"@);
    assert(rec_get(r, "is_active"@) == Some(AttrV::Bool(u.is_active)));
    lemma_rec_get_skip(r, 10, "hash"@);
    assert(rec_get(r, "hash"@) == Some(AttrV::S(u.hash)));
    lemma_decode_encode(Tag::User, u.id);
    lemma_decode_encode(Tag::Email, u.email);
}

/// Decoding the row an email-lookup entry encodes to recovers it.
pub proof fn lemma_email_record_roundtrip(e: EmailV)
    ensures
        email_of_record(email_record_v(e)) == Some(e),
        rec_get(email_record_v(e), "PK"@) == Some(AttrV::S(encode_spec(Tag::Email, e.email))),
        rec_get(email_record_v(e), "GSI1PK"@) == Some(AttrV::S(encode_spec(Tag::User, e.user_id))),
        rec_get(email_record_v(e), "GSI2PK"@) is None,
{
    let r = email_record_v(e);
    reveal_with_fuel(rec_get_from, 6);
    reveal_strlit("PK");
    reveal_strlit("SK");
    reveal_strlit("GSI1PK");
    reveal_strlit("GSI1SK");
    reveal_strlit("GSI2PK");
    assert("PK"@.len() == 2);
    assert("SK"@.len() == 2);
    assert("GSI2PK"@.len() == 6);
    assert("GSI1PK"@[3] != "GSI2PK"@[3]);
    assert("GSI1SK"@[3] != "GSI2PK"@[3]);
    assert(r.len() == 4);
    assert(r[0].name == "PK"@);
    assert(r[1].name == "SK"@);
    assert(r[2] == FieldV { name: "GSI1PK"@, value: AttrV::S(encode_spec(Tag::User, e.user_id)) });
    assert(r[3].name == "GSI1SK"@);
    assert(rec_get(r, "PK"@) == Some(AttrV::S(encode_spec(Tag::Email, e.email))));
    lemma_rec_get_skip(r, 2, "GSI1PK"@);
    assert(rec_get(r, "GSI1PK"@) == Some(AttrV::S(encode_spec(Tag::User, e.user_id))));
    lemma_rec_get_skip(r, 4, "GSI2PK"@);
    assert(rec_get(r, "GSI2PK"@) is None);
    lemma_decode_encode(Tag::Email, e.email);
    lemma_decode_encode(Tag::User, e.user_id);
}

/// A user key and an email key never collide: the tags differ.
pub proof fn lemma_user_email_keys_differ(id: Seq<char>, email: Seq<char>)
    ensures
        user_key(id) != email_key(email),
{
    reveal_strlit("USER");
    reveal_strlit("EMAIL");
    assert(user_key(id)[0] == 'U');
    assert(email_key(email)[0] == 'E');
}

impl Email {
    /// Encode this entry as its store row.
    pub fn to_record(&self) -> (r: Record)
        ensures
            r@ == email_record_v(self@),
    {
        let pk = encode_key(Tag::Email, self.email.as_str());
        let uk = encode_key(Tag::User, self.user_id.as_str());
        let mut fields: Vec<Field> = Vec::new();
        fields.push(Field { name: String::from_str("PK"), value: Attr::S(pk.clone()) });
        fields.push(Field { name: String::from_str("SK"), value: Attr::S(pk) });
        fields.push(Field { name: String::from_str("GSI1PK"), value: Attr::S(uk.clone()) });
        fields.push(Field { name: String::from_str("GSI1SK"), value: Attr::S(uk) });
        let r = Record { fields };
        proof {
            assert(r@ =~= email_record_v(self@));
        }
        r
    }

    /// Decode a store row into an email-lookup entry.
    pub fn from_record(rec: &Record) -> (r: Result<Email, DataError>)
        ensures
            match r {
                Ok(e) => email_of_record(rec@) == Some(e@),
                Err(e) => email_of_record(rec@) is None && e == (if email_key_malformed(rec@) {
                    DataError::MalformedKey
                } else {
                    DataError::CorruptRecord
                }),
            },
    {
        let pk = match rec.get_attr("PK") {
            Some(Attr::S(s)) => s,
            _ => {
                return Err(DataError::CorruptRecord);
            },
        };
        let (ptag, email) = match decode_key(pk.as_str()) {
            Ok(p) => p,
            Err(e) => {
                return Err(e);
            },
        };
        match ptag {
            Tag::Email => {},
            _ => {
                return Err(DataError::CorruptRecord);
            },
        }
        let uk = match rec.get_attr("GSI1PK") {
            Some(Attr::S(s)) => s,
            _ => {
                return Err(DataError::CorruptRecord);
            },
        };
        let (utag, user_id) = match decode_key(uk.as_str()) {
            Ok(p) => p,
            Err(e) => {
                return Err(e);
            },
        };
        match utag {
            Tag::User => {},
            _ => {
                return Err(DataError::CorruptRecord);
            },
        }
        Ok(Email { email, user_id })
    }
}

impl User {
    /// Encode this user as its store row.
    pub fn to_record(&self) -> (r: Record)
        ensures
            r@ == user_record_v(self@),
    {
        let pk = encode_key(Tag::User, self.id.as_str());
        let ek = encode_key(Tag::Email, self.email.as_str());
        let tk = encode_key(Tag::UserType, self.user_type.as_str());
        let mut fields: Vec<Field> = Vec::new();
        fields.push(Field { name: String::from_str("PK"), value: Attr::S(pk.clone()) });
        fields.push(Field { name: String::from_str("SK"), value: Attr::S(pk) });
        fields.push(Field { name: String::from_str("GSI1PK"), value: Attr::S(ek.clone()) });
        fields.push(Field { name: String::from_str("GSI1SK"), value: Attr::S(ek) });
        fields.push(Field { name: String::from_str("GSI2PK"), value: Attr::S(tk.clone()) });
        fields.push(Field { name: String::from_str("GSI2SK"), value: Attr::S(tk) });
        fields.push(
            Field { name: String::from_str("first_name"), value: Attr::S(self.first_name.clone()) },
        );
        fields.push(
            Field { name: String::from_str("last_name"), value: Attr::S(self.last_name.clone()) },
        );
        fields.push(
            Field { name: String::from_str("user_type"), value: Attr::S(self.user_type.clone()) },
        );
        fields.push(Field { name: String::from_str("is_active"), value: Attr::Bool(self.is_active) });
        fields.push(Field { name: String::from_str("hash"), value: Attr::S(self.hash.clone()) });
        let r = Record { fields };
        proof {
            assert(r@ =~= user_record_v(self@));
        }
        r
    }

    /// Decode a store row into a user, `CorruptRecord` when a required
    /// attribute is absent or of the wrong shape, `MalformedKey` when a
    /// key attribute does not parse.
    pub fn from_record(rec: &Record) -> (r: Result<User, DataError>)
        ensures
            match r {
                Ok(u) => user_of_record(rec@) == Some(u@),
                Err(e) => user_of_record(rec@) is None && e == (if user_key_malformed(rec@) {
                    DataError::MalformedKey
                } else {
                    DataError::CorruptRecord
                }),
            },
    {
        let pk = match rec.get_attr("PK") {
            Some(Attr::S(s)) => s,
            _ => {
                return Err(DataError::CorruptRecord);
            },
        };
        let (ptag, id) = match decode_key(pk.as_str()) {
            Ok(p) => p,
            Err(e) => {
                return Err(e);
            },
        };
        match ptag {
            Tag::User => {},
            _ => {
                return Err(DataError::CorruptRecord);
            },
        }
        let ek = match rec.get_attr("GSI1PK") {
            Some(Attr::S(s)) => s,
            _ => {
                return Err(DataError::CorruptRecord);
            },
        };
        let (etag, email) = match decode_key(ek.as_str()) {
            Ok(p) => p,
            Err(e) => {
                return Err(e);
            },
        };
        match etag {
            Tag::Email => {},
            _ => {
                return Err(DataError::CorruptRecord);
            },
        }
        let first_name = match rec.get_attr("first_name") {
            Some(Attr::S(s)) => s.clone(),
            _ => {
                return Err(DataError::CorruptRecord);
            },
        };
        let last_name = match rec.get_attr("last_name") {
            Some(Attr::S(s)) => s.clone(),
            _ => {
                return Err(DataError::CorruptRecord);
            },
        };
        let user_type = match rec.get_attr("user_type") {
            Some(Attr::S(s)) => s.clone(),
            _ => {
                return Err(DataError::CorruptRecord);
            },
        };
        let is_active = match rec.get_attr("is_active") {
            Some(Attr::Bool(b)) => *b,
            _ => {
                return Err(DataError::CorruptRecord);
            },
        };
        let hash = match rec.get_attr("hash") {
            Some(Attr::S(s)) => s.clone(),
            _ => {
                return Err(DataError::CorruptRecord);
            },
        };
        Ok(User { id, email, first_name, last_name, is_active, user_type, hash })
    }

    /// Create a user under a fresh id: stores the primary row and the
    /// email-lookup row, so that lookup by email finds the new user at
    /// once.
    pub fn create(store: &mut EntityStore, ids: &mut IdGen, input: &Create) -> (r: User)
        requires
            old(ids).wf(),
            old(ids).counter < u64::MAX,
        ensures
            final(ids).wf(),
            final(ids).counter == old(ids).counter + 1,
            final(ids).issued@ == old(ids).issued@.insert(r.id@),
            !old(ids).issued@.contains(r.id@),
            r@.email == input.email@,
            r@.first_name == input.first_name@,
            r@.last_name == input.last_name@,
            r@.user_type == input.user_type@,
            r@.hash == input.hash@,
            r@.is_active == true,
            r.id@.len() == crate::id::ID_LEN,
            final(store).kv().dom() == old(store).kv().dom().insert(user_key(r.id@)).insert(
                email_key(r.email@),
            ),
            final(store).kv()[user_key(r.id@)]@ == user_record_v(r@),
            final(store).kv()[email_key(r.email@)]@ == email_record_v(
                EmailV { email: r.email@, user_id: r.id@ },
            ),
            final(store).idx(crate::store::Index::Gsi1) == old(store).idx(
                crate::store::Index::Gsi1,
            ).insert(email_key(r.email@), user_key(r.id@)).insert(user_key(r.id@), email_key(r.email@)),
            final(store).idx(crate::store::Index::Gsi2) == old(store).idx(
                crate::store::Index::Gsi2,
            ).insert(encode_spec(Tag::UserType, r.user_type@), user_key(r.id@)),
            forall|k: Seq<char>|
                k != user_key(r.id@) && k != email_key(r.email@) && old(store).kv().contains_key(k)
                    ==> final(store).kv()[k] == old(store).kv()[k],
            user_at(final(store).kv(), r.id@) == Some(r@),
            user_by_email_at(final(store).kv(), input.email@) == Some(r@),
    {
        let id = ids.fresh_id();
        let user = User {
            id,
            email: input.email.clone(),
            first_name: input.first_name.clone(),
            last_name: input.last_name.clone(),
            is_active: true,
            user_type: input.user_type.clone(),
            hash: input.hash.clone(),
        };
        let urec = user.to_record();
        let ukey = encode_key(Tag::User, user.id.as_str());
        store.put(ukey, urec);
        let entry = Email { email: user.email.clone(), user_id: user.id.clone() };
        let erec = entry.to_record();
        let ekey = encode_key(Tag::Email, user.email.as_str());
        store.put(ekey, erec);
        proof {
            lemma_user_record_roundtrip(user@);
            lemma_email_record_roundtrip(entry@);
            lemma_user_email_keys_differ(user.id@, user.email@);
            assert(final(store).kv().dom() =~= old(store).kv().dom().insert(
                user_key(user.id@),
            ).insert(email_key(user.email@)));
        }
        user
    }

    /// Fetch a user by id; `NotFound` exactly when no row is stored
    /// under the user's key.
    pub fn from_id(store: &EntityStore, id: &str) -> (r: Result<User, DataError>)
        ensures
            match r {
                Ok(u) => user_at(store.kv(), id@) == Some(u@),
                Err(e) => user_at(store.kv(), id@) is None && (e == DataError::NotFound
                    <==> !store.kv().contains_key(user_key(id@))) && (e == DataError::NotFound || e
                    == DataError::MalformedKey || e == DataError::CorruptRecord),
            },
    {
        let key = encode_key(Tag::User, id);
        match store.get(key.as_str()) {
            None => Err(DataError::NotFound),
            Some(rec) => User::from_record(rec),
        }
    }

    /// Fetch a user by email: the email-lookup row first, then the
    /// primary row by the embedded user id. The two reads are not
    /// atomic against a concurrent delete; a miss in either step is
    /// `NotFound`.
    pub fn get_by_email(store: &EntityStore, email: &str) -> (r: Result<User, DataError>)
        ensures
            match r {
                Ok(u) => user_by_email_at(store.kv(), email@) == Some(u@),
                Err(e) => user_by_email_at(store.kv(), email@) is None && (e == DataError::NotFound
                    <==> (!store.kv().contains_key(email_key(email@)) || (email_of_record(
                    store.kv()[email_key(email@)]@,
                ) matches Some(en) && !store.kv().contains_key(user_key(en.user_id))))),
            },
    {
        let ekey = encode_key(Tag::Email, email);
        let erec = match store.get(ekey.as_str()) {
            None => {
                return Err(DataError::NotFound);
            },
            Some(r) => r,
        };
        let entry = match Email::from_record(erec) {
            Ok(e) => e,
            Err(e) => {
                return Err(e);
            },
        };
        User::from_id(store, entry.user_id.as_str())
    }

    /// Remove the primary user row; `NotFound` when it has no row. The
    /// email-lookup row is not cascaded.
    pub fn delete(store: &mut EntityStore, id: &str) -> (r: Result<(), DataError>)
        ensures
            final(store).kv() == old(store).kv().remove(user_key(id@)),
            final(store).idx(crate::store::Index::Gsi1) == old(store).idx(crate::store::Index::Gsi1),
            final(store).idx(crate::store::Index::Gsi2) == old(store).idx(crate::store::Index::Gsi2),
            r matches Ok(()) <==> old(store).kv().contains_key(user_key(id@)),
            r matches Err(e) ==> e == DataError::NotFound,
    {
        let key = encode_key(Tag::User, id);
        store.delete(key.as_str())
    }
}

} // verus!
