//! Teams: create and read over the shared store, with
//! the same key-encoding pattern as users.

use vstd::prelude::*;
use crate::errors::DataError;
use crate::id::IdGen;
use crate::keys::{Tag, decode_spec, encode_spec, encode_key, decode_key, lemma_decode_encode};
use crate::record::{Attr, AttrV, Field, FieldV, Record, rec_get, rec_get_from, lemma_rec_get_skip};
use crate::store::EntityStore;

verus! {

/// Spec-level team.
#[verifier::ext_equal]
pub struct TeamV {
    pub id: Seq<char>,
    pub name: Seq<char>,
    pub active: bool,
}

/// A team.
#[derive(Debug)]
pub struct Team {
    pub id: String,
    pub name: String,
    pub active: bool,
}

impl View for Team {
    type V = TeamV;

    open spec fn view(&self) -> TeamV {
        TeamV { id: self.id@, name: self.name@, active: self.active }
    }
}

impl Clone for Team {
    fn clone(&self) -> (r: Self)
        ensures
            r@ == self@,
    {
        Team { id: self.id.clone(), name: self.name.clone(), active: self.active }
    }
}

/// Input to `Team::create`; the id and active flag are assigned by the
/// repository, a fresh id and `true`.
pub struct Create {
    pub name: String,
}

/// Primary key of a team row.
pub open spec fn team_key(id: Seq<char>) -> Seq<char> {
    encode_spec(Tag::Team, id)
}

/// The row a team is stored as; the name feeds the first
/// secondary axis under the same tag.
pub open spec fn team_record_v(t: TeamV) -> Seq<FieldV> {
    seq![
        FieldV { name: "PK"@, value: AttrV::S(encode_spec(Tag::Team, t.id)) },
        FieldV { name: "SK"@, value: AttrV::S(encode_spec(Tag::Team, t.id)) },
        FieldV { name: "GSI1PK"@, value: AttrV::S(encode_spec(Tag::Team, t.name)) },
        FieldV { name: "GSI1SK"@, value: AttrV::S(encode_spec(Tag::Team, t.name)) },
        FieldV { name: "is_active"@, value: AttrV::Bool(t.active) },
    ]
}

/// The team a row decodes to, if well formed.
pub open spec fn team_of_record(r: Seq<FieldV>) -> Option<TeamV> {
    match (rec_get(r, "PK"@), rec_get(r, "GSI1PK"@), rec_get(r, "is_active"@)) {
        (Some(AttrV::S(pk)), Some(AttrV::S(nk)), Some(AttrV::Bool(active))) => match (
            decode_spec(pk),
            decode_spec(nk),
        ) {
            (Some((Tag::Team, id)), Some((Tag::Team, name))) => Some(TeamV { id, name, active }),
            _ => None,
        },
        _ => None,
    }
}

/// The team stored under `id`.
pub open spec fn team_at(m: Map<Seq<char>, Record>, id: Seq<char>) -> Option<TeamV> {
    if m.contains_key(team_key(id)) {
        team_of_record(m[team_key(id)]@)
    } else {
        None
    }
}

/// A team row fails on a key that does not parse, in decode order:
/// the primary key first, then the name key. Every other failure is a
/// missing or wrong-shape attribute.
pub open spec fn team_key_malformed(r: Seq<FieldV>) -> bool {
    match rec_get(r, "PK"@) {
        Some(AttrV::S(pk)) => match decode_spec(pk) {
            None => true,
            Some((Tag::Team, _)) => match rec_get(r, "GSI1PK"@) {
                Some(AttrV::S(nk)) => decode_spec(nk) is None,
                _ => false,
            },
            Some(_) => false,
        },
        _ => false,
    }
}

/// Decoding the row a team encodes to recovers it.
pub proof fn lemma_team_record_roundtrip(t: TeamV)
    ensures
        team_of_record(team_record_v(t)) == Some(t),
        rec_get(team_record_v(t), "PK"@) == Some(AttrV::S(encode_spec(Tag::Team, t.id))),
        rec_get(team_record_v(t), "GSI1PK"@) == Some(AttrV::S(encode_spec(Tag::Team, t.name))),
        rec_get(team_record_v(t), "GSI2PK"@) is None,
{
    let r = team_record_v(t);
    reveal_with_fuel(rec_get_from, 7);
    reveal_strlit("PK");
    reveal_strlit("SK");
    reveal_strlit("GSI1PK");
    reveal_strlit("GSI1SK");
    reveal_strlit("is_active");
    reveal_strlit("GSI2PK");
    assert("GSI2PK"@.len() == 6);
    assert("GSI1PK"@[3] != "GSI2PK"@[3]);
    assert("GSI1SK"@[3] != "GSI2PK"@[3]);
    assert("PK"@.len() == 2);
    assert("SK"@.len() == 2);
    assert("GSI1PK"@.len() == 6);
    assert("GSI1SK"@.len() == 6);
    assert("is_active"@.len() == 9);
    assert("PK"@[0] != "SK"@[0]);
    assert("GSI1PK"@[4] != "GSI1SK"@[4]);
    assert(r.len() == 5);
    assert(r[0].name == "PK"@);
    assert(r[1].name == "SK"@);
    assert(r[2] == FieldV { name: "GSI1PK"@, value: AttrV::S(encode_spec(Tag::Team, t.name)) });
    assert(r[3].name == "GSI1SK"@);
    assert(r[4] == FieldV { name: "is_active"@, value: AttrV::Bool(t.active) });
    assert(rec_get(r, "PK"@) == Some(AttrV::S(encode_spec(Tag::Team, t.id))));
    lemma_rec_get_skip(r, 2, "GSI1PK"@);
    assert(rec_get(r, "GSI1PK"@) == Some(AttrV::S(encode_spec(Tag::Team, t.name))));
    lemma_rec_get_skip(r, 4, "is_active"@);
    assert(rec_get(r, "is_active"@) == Some(AttrV::Bool(t.active)));
    lemma_rec_get_skip(r, 5, "GSI2PK"@);
    assert(rec_get(r, "GSI2PK"@) is None);
    lemma_decode_encode(Tag::Team, t.id);
    lemma_decode_encode(Tag::Team, t.name);
}

impl Team {
    /// Encode this team as its store row.
    pub fn to_record(&self) -> (r: Record)
        ensures
            r@ == team_record_v(self@),
    {
        let pk = encode_key(Tag::Team, self.id.as_str());
        let nk = encode_key(Tag::Team, self.name.as_str());
        let mut fields: Vec<Field> = Vec::new();
        fields.push(Field { name: String::from_str("PK"), value: Attr::S(pk.clone()) });
        fields.push(Field { name: String::from_str("SK"), value: Attr::S(pk) });
        fields.push(Field { name: String::from_str("GSI1PK"), value: Attr::S(nk.clone()) });
        fields.push(Field { name: String::from_str("GSI1SK"), value: Attr::S(nk) });
        fields.push(Field { name: String::from_str("is_active"), value: Attr::Bool(self.active) });
        let r = Record { fields };
        proof {
            assert(r@ =~= team_record_v(self@));
        }
        r
    }

    /// Decode a store row into a team.
    pub fn from_record(rec: &Record) -> (r: Result<Team, DataError>)
        ensures
            match r {
                Ok(t) => team_of_record(rec@) == Some(t@),
                Err(e) => team_of_record(rec@) is None && e == (if team_key_malformed(rec@) {
                    DataError::MalformedKey
                } else {
                    DataError::CorruptRecord
                }),
            },
    {
        let pk = match rec.get_attr("PK") {
            Some(Attr::S(s)) => s,
            _ => {
                return Err(DataError::CorruptRecord);
            },
        };
        let (ptag, id) = match decode_key(pk.as_str()) {
            Ok(p) => p,
            Err(e) => {
                return Err(e);
            },
        };
        match ptag {
            Tag::Team => {},
            _ => {
                return Err(DataError::CorruptRecord);
            },
        }
        let nk = match rec.get_attr("GSI1PK") {
            Some(Attr::S(s)) => s,
            _ => {
                return Err(DataError::CorruptRecord);
            },
        };
        let (ntag, name) = match decode_key(nk.as_str()) {
            Ok(p) => p,
            Err(e) => {
                return Err(e);
            },
        };
        match ntag {
            Tag::Team => {},
            _ => {
                return Err(DataError::CorruptRecord);
            },
        }
        let active = match rec.get_attr("is_active") {
            Some(Attr::Bool(b)) => *b,
            _ => {
                return Err(DataError::CorruptRecord);
            },
        };
        Ok(Team { id, name, active })
    }

    /// Create a team under a fresh id, stored active.
    pub fn create(store: &mut EntityStore, ids: &mut IdGen, team: &Create) -> (r: Team)
        requires
            old(ids).wf(),
            old(ids).counter < u64::MAX,
        ensures
            final(ids).wf(),
            final(ids).counter == old(ids).counter + 1,
            final(ids).issued@ == old(ids).issued@.insert(r.id@),
            !old(ids).issued@.contains(r.id@),
            r@.name == team.name@,
            r@.active == true,
            r.id@.len() == crate::id::ID_LEN,
            final(store).kv().dom() == old(store).kv().dom().insert(team_key(r.id@)),
            final(store).kv()[team_key(r.id@)]@ == team_record_v(r@),
            final(store).idx(crate::store::Index::Gsi1) == old(store).idx(
                crate::store::Index::Gsi1,
            ).insert(encode_spec(Tag::Team, r.name@), team_key(r.id@)),
            final(store).idx(crate::store::Index::Gsi2) == old(store).idx(crate::store::Index::Gsi2),
            forall|k: Seq<char>|
                k != team_key(r.id@) && old(store).kv().contains_key(k)
                    ==> final(store).kv()[k] == old(store).kv()[k],
            team_at(final(store).kv(), r.id@) == Some(r@),
    {
        let id = ids.fresh_id();
        let created = Team { id, name: team.name.clone(), active: true };
        let rec = created.to_record();
        let key = encode_key(Tag::Team, created.id.as_str());
        store.put(key, rec);
        proof {
            lemma_team_record_roundtrip(created@);
            assert(final(store).kv().dom() =~= old(store).kv().dom().insert(team_key(created.id@)));
        }
        created
    }

    /// Fetch a team by id.
    pub fn from_id(store: &EntityStore, id: &str) -> (r: Result<Team, DataError>)
        ensures
            match r {
                Ok(t) => team_at(store.kv(), id@) == Some(t@),
                Err(e) => team_at(store.kv(), id@) is None && (e == DataError::NotFound
                    <==> !store.kv().contains_key(team_key(id@))) && (e == DataError::NotFound || e
                    == DataError::MalformedKey || e == DataError::CorruptRecord),
            },
    {
        let key = encode_key(Tag::Team, id);
        match store.get(key.as_str()) {
            None => Err(DataError::NotFound),
            Some(rec) => Team::from_record(rec),
        }
    }

    /// Remove a team row; `NotFound` when it has no row.
    pub fn delete(store: &mut EntityStore, id: &str) -> (r: Result<(), DataError>)
        ensures
            final(store).kv() == old(store).kv().remove(team_key(id@)),
            final(store).idx(crate::store::Index::Gsi1) == old(store).idx(crate::store::Index::Gsi1),
            final(store).idx(crate::store::Index::Gsi2) == old(store).idx(crate::store::Index::Gsi2),
            r matches Ok(()) <==> old(store).kv().contains_key(team_key(id@)),
            r matches Err(e) ==> e == DataError::NotFound,
    {
        let key = encode_key(Tag::Team, id);
        store.delete(key.as_str())
    }
}

} // verus!
