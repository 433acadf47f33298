//! Sessions: server-issued identity tokens, optionally bound to a
//! user. A session with no bound user is anonymous. All session state
//! lives in the store; sessions do not expire in this core.
//!
//! One deliberate exception to the key-tagging convention: the bound
//! user id sits untagged in the session row's index attribute. Its
//! value is consumed directly as a user id by the resolver and is never
//! decoded as a key, so no tag is stripped on the way out.

use vstd::prelude::*;
use crate::errors::DataError;
use crate::id::IdGen;
use crate::keys::{Tag, decode_spec, encode_spec, encode_key, decode_key, lemma_decode_encode};
use crate::record::{Attr, AttrV, Field, FieldV, Record, rec_get, rec_get_from, lemma_rec_get_skip};
use crate::store::EntityStore;

verus! {

/// The bound user id, as a sequence of characters.
pub open spec fn opt_view(o: Option<String>) -> Option<Seq<char>> {
    match o {
        Some(s) => Some(s@),
        None => None,
    }
}

/// Spec-level session.
#[verifier::ext_equal]
pub struct SessionV {
    pub id: Seq<char>,
    pub user_id: Option<Seq<char>>,
    pub csrf_token: Seq<char>,
}

/// A session; `user_id` absent means anonymous.
#[derive(Debug)]
pub struct Session {
    pub id: String,
    pub user_id: Option<String>,
    pub csrf_token: String,
}

impl View for Session {
    type V = SessionV;

    open spec fn view(&self) -> SessionV {
        SessionV { id: self.id@, user_id: opt_view(self.user_id), csrf_token: self.csrf_token@ }
    }
}

impl Clone for Session {
    fn clone(&self) -> (r: Self)
        ensures
            r@ == self@,
    {
        Session {
            id: self.id.clone(),
            user_id: match &self.user_id {
                Some(u) => Some(u.clone()),
                None => None,
            },
            csrf_token: self.csrf_token.clone(),
        }
    }
}

/// Primary key of a session row.
pub open spec fn session_key(id: Seq<char>) -> Seq<char> {
    encode_spec(Tag::Session, id)
}

/// The row a session is stored as; the bound user id, when present,
/// sits untagged in the index attribute.
pub open spec fn session_record_v(s: SessionV) -> Seq<FieldV> {
    match s.user_id {
        Some(u) => seq![
            FieldV { name: "PK"@, value: AttrV::S(encode_spec(Tag::Session, s.id)) },
            FieldV { name: "SK"@, value: AttrV::S(encode_spec(Tag::Session, s.id)) },
            FieldV { name: "GSI1PK"@, value: AttrV::S(u) },
            FieldV { name: "GSI1SK"@, value: AttrV::S(u) },
            FieldV { name: "csrf_token"@, value: AttrV::S(s.csrf_token) },
        ],
        None => seq![
            FieldV { name: "PK"@, value: AttrV::S(encode_spec(Tag::Session, s.id)) },
            FieldV { name: "SK"@, value: AttrV::S(encode_spec(Tag::Session, s.id)) },
            FieldV { name: "csrf_token"@, value: AttrV::S(s.csrf_token) },
        ],
    }
}

/// The session a row decodes to, if well formed.
pub open spec fn session_of_record(r: Seq<FieldV>) -> Option<SessionV> {
    match (rec_get(r, "PK"@), rec_get(r, "csrf_token"@)) {
        (Some(AttrV::S(pk)), Some(AttrV::S(csrf))) => match decode_spec(pk) {
            Some((Tag::Session, id)) => match rec_get(r, "GSI1PK"@) {
                Some(AttrV::S(u)) => Some(SessionV { id, user_id: Some(u), csrf_token: csrf }),
                Some(AttrV::Bool(_)) => None,
                None => Some(SessionV { id, user_id: None, csrf_token: csrf }),
            },
            _ => None,
        },
        _ => None,
    }
}

/// The session stored under `id`.
pub open spec fn session_at(m: Map<Seq<char>, Record>, id: Seq<char>) -> Option<SessionV> {
    if m.contains_key(session_key(id)) {
        session_of_record(m[session_key(id)]@)
    } else {
        None
    }
}

/// A session row fails on a primary key that does not parse; every
/// other failure is a missing or wrong-shape attribute.
pub open spec fn session_key_malformed(r: Seq<FieldV>) -> bool {
    match rec_get(r, "PK"@) {
        Some(AttrV::S(pk)) => decode_spec(pk) is None,
        _ => false,
    }
}

/// Decoding the row a session encodes to recovers the session.
pub proof fn lemma_session_record_roundtrip(s: SessionV)
    ensures
        session_of_record(session_record_v(s)) == Some(s),
        rec_get(session_record_v(s), "PK"@) == Some(AttrV::S(encode_spec(Tag::Session, s.id))),
        (match s.user_id {
            Some(u) => rec_get(session_record_v(s), "GSI1PK"@) == Some(AttrV::S(u)),
            None => rec_get(session_record_v(s), "GSI1PK"@) is None,
        }),
        rec_get(session_record_v(s), "GSI2PK"@) is None,
{
    let r = session_record_v(s);
    reveal_with_fuel(rec_get_from, 7);
    reveal_strlit("PK");
    reveal_strlit("SK");
    reveal_strlit("GSI1PK");
    reveal_strlit("GSI1SK");
    reveal_strlit("csrf_token");
    reveal_strlit("GSI2PK");
    assert("PK"@.len() == 2);
    assert("SK"@.len() == 2);
    assert("GSI1PK"@.len() == 6);
    assert("GSI1SK"@.len() == 6);
    assert("GSI2PK"@.len() == 6);
    assert("csrf_token"@.len() == 10);
    assert("PK"@[0] != "SK"@[0]);
    assert("GSI1PK"@[4] != "GSI1SK"@[4]);
    assert("GSI1PK"@[3] != "GSI2PK"@[3]);
    assert("GSI1SK"@[3] != "GSI2PK"@[3]);
    match s.user_id {
        Some(u) => {
            assert(r.len() == 5);
            assert(r[0].name == "PK"@);
            assert(r[1].name == "SK"@);
            assert(r[2] == FieldV { name: "GSI1PK"@, value: AttrV::S(u) });
            assert(r[3].name == "GSI1SK"@);
            assert(r[4] == FieldV { name: "csrf_token"@, value: AttrV::S(s.csrf_token) });
            assert(rec_get(r, "PK"@) == Some(AttrV::S(encode_spec(Tag::Session, s.id))));
            lemma_rec_get_skip(r, 2, "GSI1PK"@);
            assert(rec_get(r, "GSI1PK"@) == Some(AttrV::S(u)));
            lemma_rec_get_skip(r, 4, "csrf_token"@);
            assert(rec_get(r, "csrf_token"@) == Some(AttrV::S(s.csrf_token)));
            lemma_rec_get_skip(r, 5, "GSI2PK"@);
            assert(rec_get(r, "GSI2PK"@) is None);
        },
        None => {
            assert(r.len() == 3);
            assert(r[0].name == "PK"@);
            assert(r[1].name == "SK"@);
            assert(r[2] == FieldV { name: "csrf_token"@, value: AttrV::S(s.csrf_token) });
            assert(rec_get(r, "PK"@) == Some(AttrV::S(encode_spec(Tag::Session, s.id))));
            lemma_rec_get_skip(r, 2, "csrf_token"@);
            assert(rec_get(r, "csrf_token"@) == Some(AttrV::S(s.csrf_token)));
            lemma_rec_get_skip(r, 3, "GSI1PK"@);
            assert(rec_get(r, "GSI1PK"@) is None);
            lemma_rec_get_skip(r, 3, "GSI2PK"@);
            assert(rec_get(r, "GSI2PK"@) is None);
        },
    }
    lemma_decode_encode(Tag::Session, s.id);
}

impl Session {
    /// Encode this session as its store row.
    pub fn to_record(&self) -> (r: Record)
        ensures
            r@ == session_record_v(self@),
    {
        let pk = encode_key(Tag::Session, self.id.as_str());
        let mut fields: Vec<Field> = Vec::new();
        fields.push(Field { name: String::from_str("PK"), value: Attr::S(pk.clone()) });
        fields.push(Field { name: String::from_str("SK"), value: Attr::S(pk) });
        match &self.user_id {
            Some(u) => {
                fields.push(Field { name: String::from_str("GSI1PK"), value: Attr::S(u.clone()) });
                fields.push(Field { name: String::from_str("GSI1SK"), value: Attr::S(u.clone()) });
            },
            None => {},
        }
        fields.push(
            Field { name: String::from_str("csrf_token"), value: Attr::S(self.csrf_token.clone()) },
        );
        let r = Record { fields };
        proof {
            assert(r@ =~= session_record_v(self@));
        }
        r
    }

    /// Decode a store row into a session.
    pub fn from_record(rec: &Record) -> (r: Result<Session, DataError>)
        ensures
            match r {
                Ok(s) => session_of_record(rec@) == Some(s@),
                Err(e) => session_of_record(rec@) is None && e == (if session_key_malformed(rec@) {
                    DataError::MalformedKey
                } else {
                    DataError::CorruptRecord
                }),
            },
    {
        let pk = match rec.get_attr("PK") {
            Some(Attr::S(s)) => s,
            _ => {
                return Err(DataError::CorruptRecord);
            },
        };
        let (ptag, id) = match decode_key(pk.as_str()) {
            Ok(p) => p,
            Err(e) => {
                return Err(e);
            },
        };
        match ptag {
            Tag::Session => {},
            _ => {
                return Err(DataError::CorruptRecord);
            },
        }
        let user_id = match rec.get_attr("GSI1PK") {
            Some(Attr::S(u)) => Some(u.clone()),
            Some(Attr::Bool(_)) => {
                return Err(DataError::CorruptRecord);
            },
            None => None,
        };
        let csrf_token = match rec.get_attr("csrf_token") {
            Some(Attr::S(s)) => s.clone(),
            _ => {
                return Err(DataError::CorruptRecord);
            },
        };
        Ok(Session { id, user_id, csrf_token })
    }

    /// A fresh, not-yet-stored session: a fresh id and a fresh
    /// anti-forgery token; `user_id` absent makes it anonymous.
    pub fn fresh(ids: &mut IdGen, user_id: Option<String>) -> (r: Session)
        requires
            old(ids).wf(),
            old(ids).counter < u64::MAX - 1,
        ensures
            final(ids).wf(),
            final(ids).counter == old(ids).counter + 2,
            final(ids).issued@ == old(ids).issued@.insert(r.id@).insert(r.csrf_token@),
            !old(ids).issued@.contains(r.id@),
            r@.user_id == opt_view(user_id),
            r.id@.len() == crate::id::ID_LEN,
            r.csrf_token@.len() == crate::id::ID_LEN,
    {
        let id = ids.fresh_id();
        let csrf_token = ids.fresh_id();
        Session { id, user_id, csrf_token }
    }

    /// Create a session under a fresh id with a fresh anti-forgery
    /// token and store it; `user_id` absent makes it anonymous. When
    /// every stored session id came out of this generator, the new id
    /// is not yet in the store either.
    pub fn create(store: &mut EntityStore, ids: &mut IdGen, user_id: Option<String>) -> (r: Session)
        requires
            old(ids).wf(),
            old(ids).counter < u64::MAX - 1,
        ensures
            final(ids).wf(),
            final(ids).counter == old(ids).counter + 2,
            final(ids).issued@ == old(ids).issued@.insert(r.id@).insert(r.csrf_token@),
            !old(ids).issued@.contains(r.id@),
            r@.user_id == opt_view(user_id),
            r.id@.len() == crate::id::ID_LEN,
            r.csrf_token@.len() == crate::id::ID_LEN,
            final(store).kv().dom() == old(store).kv().dom().insert(session_key(r.id@)),
            forall|k: Seq<char>|
                k != session_key(r.id@) && old(store).kv().contains_key(k)
                    ==> final(store).kv()[k] == old(store).kv()[k],
            final(store).kv()[session_key(r.id@)]@ == session_record_v(r@),
            session_at(final(store).kv(), r.id@) == Some(r@),
            (match opt_view(user_id) {
                Some(u) => final(store).idx(crate::store::Index::Gsi1) == old(store).idx(
                    crate::store::Index::Gsi1,
                ).insert(u, session_key(r.id@)),
                None => final(store).idx(crate::store::Index::Gsi1) == old(store).idx(
                    crate::store::Index::Gsi1,
                ),
            }),
            final(store).idx(crate::store::Index::Gsi2) == old(store).idx(crate::store::Index::Gsi2),
            (forall|sid: Seq<char>|
                old(store).kv().contains_key(session_key(sid)) ==> old(ids).issued@.contains(sid))
                ==> !old(store).kv().contains_key(session_key(r.id@)),
    {
        let session = Session::fresh(ids, user_id);
        let rec = session.to_record();
        let key = encode_key(Tag::Session, session.id.as_str());
        store.put(key, rec);
        proof {
            lemma_session_record_roundtrip(session@);
            assert(final(store).kv().dom() =~= old(store).kv().dom().insert(
                session_key(session.id@),
            ));
        }
        session
    }

    /// Resolve a session id; any failure means the credential does not
    /// name a valid session.
    pub fn from_id(store: &EntityStore, id: &str) -> (r: Result<Session, DataError>)
        ensures
            match r {
                Ok(s) => session_at(store.kv(), id@) == Some(s@),
                Err(e) => session_at(store.kv(), id@) is None && (e == DataError::NotFound
                    <==> !store.kv().contains_key(session_key(id@))) && (e == DataError::NotFound
                    || e == DataError::MalformedKey || e == DataError::CorruptRecord),
            },
    {
        let key = encode_key(Tag::Session, id);
        match store.get(key.as_str()) {
            None => Err(DataError::NotFound),
            Some(rec) => Session::from_record(rec),
        }
    }
}

} // verus!
