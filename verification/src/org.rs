//! Organizations: create, read and delete over the shared store, with
//! the same key-encoding pattern as users.

use vstd::prelude::*;
use crate::errors::DataError;
use crate::id::IdGen;
use crate::keys::{Tag, decode_spec, encode_spec, encode_key, decode_key, lemma_decode_encode};
use crate::record::{Attr, AttrV, Field, FieldV, Record, rec_get, rec_get_from, lemma_rec_get_skip};
use crate::store::EntityStore;

verus! {

/// Spec-level organization.
#[verifier::ext_equal]
pub struct OrgV {
    pub id: Seq<char>,
    pub name: Seq<char>,
    pub active: bool,
}

/// An organization.
#[derive(Debug)]
pub struct Org {
    pub id: String,
    pub name: String,
    pub active: bool,
}

impl View for Org {
    type V = OrgV;

    open spec fn view(&self) -> OrgV {
        OrgV { id: self.id@, name: self.name@, active: self.active }
    }
}

impl Clone for Org {
    fn clone(&self) -> (r: Self)
        ensures
            r@ == self@,
    {
        Org { id: self.id.clone(), name: self.name.clone(), active: self.active }
    }
}

/// Input to `Org::create`; the id and active flag are assigned by the
/// repository, a fresh id and `true`.
pub struct Create {
    pub id: String,
    pub name: String,
    pub active: bool,
}

/// Primary key of an organization row.
pub open spec fn org_key(id: Seq<char>) -> Seq<char> {
    encode_spec(Tag::Org, id)
}

/// The row an organization is stored as; the name feeds the first
/// secondary axis under the same tag.
pub open spec fn org_record_v(o: OrgV) -> Seq<FieldV> {
    seq![
        FieldV { name: "PK"@, value: AttrV::S(encode_spec(Tag::Org, o.id)) },
        FieldV { name: "SK"@, value: AttrV::S(encode_spec(Tag::Org, o.id)) },
        FieldV { name: "GSI1PK"@, value: AttrV::S(encode_spec(Tag::Org, o.name)) },
        FieldV { name: "GSI1SK"@, value: AttrV::S(encode_spec(Tag::Org, o.name)) },
        FieldV { name: "is_active"@, value: AttrV::Bool(o.active) },
    ]
}

/// The organization a row decodes to, if well formed.
pub open spec fn org_of_record(r: Seq<FieldV>) -> Option<OrgV> {
    match (rec_get(r, "PK"@), rec_get(r, "GSI1PK"@), rec_get(r, "is_active"@)) {
        (Some(AttrV::S(pk)), Some(AttrV::S(nk)), Some(AttrV::Bool(active))) => match (
            decode_spec(pk),
            decode_spec(nk),
        ) {
            (Some((Tag::Org, id)), Some((Tag::Org, name))) => Some(OrgV { id, name, active }),
            _ => None,
        },
        _ => None,
    }
}

/// The organization stored under `id`.
pub open spec fn org_at(m: Map<Seq<char>, Record>, id: Seq<char>) -> Option<OrgV> {
    if m.contains_key(org_key(id)) {
        org_of_record(m[org_key(id)]@)
    } else {
        None
    }
}

/// A org row fails on a key that does not parse, in decode order:
/// the primary key first, then the name key. Every other failure is a
/// missing or wrong-shape attribute.
pub open spec fn org_key_malformed(r: Seq<FieldV>) -> bool {
    match rec_get(r, "PK"@) {
        Some(AttrV::S(pk)) => match decode_spec(pk) {
            None => true,
            Some((Tag::Org, _)) => match rec_get(r, "GSI1PK"@) {
                Some(AttrV::S(nk)) => decode_spec(nk) is None,
                _ => false,
            },
            Some(_) => false,
        },
        _ => false,
    }
}

/// Decoding the row an organization encodes to recovers it.
pub proof fn lemma_org_record_roundtrip(o: OrgV)
    ensures
        org_of_record(org_record_v(o)) == Some(o),
        rec_get(org_record_v(o), "PK"@) == Some(AttrV::S(encode_spec(Tag::Org, o.id))),
        rec_get(org_record_v(o), "GSI1PK"@) == Some(AttrV::S(encode_spec(Tag::Org, o.name))),
        rec_get(org_record_v(o), "GSI2PK"@) is None,
{
    let r = org_record_v(o);
    reveal_with_fuel(rec_get_from, 7);
    reveal_strlit("PK");
    reveal_strlit("SK");
    reveal_strlit("GSI1PK");
    reveal_strlit("GSI1SK");
    reveal_strlit("is_active");
    reveal_strlit("GSI2PK");
    assert("GSI2PK"@.len() == 6);
    assert("GSI1PK"@[3] != "GSI2PK"@[3]);
    assert("GSI1SK"@[3] != "GSI2PK"@[3]);
    assert("PK"@.len() == 2);
    assert("SK"@.len() == 2);
    assert("GSI1PK"@.len() == 6);
    assert("GSI1SK"@.len() == 6);
    assert("is_active"@.len() == 9);
    assert("PK"@[0] != "SK"@[0]);
    assert("GSI1PK"@[4] != "GSI1SK"@[4]);
    assert(r.len() == 5);
    assert(r[0].name == "PK"@);
    assert(r[1].name == "SK"@);
    assert(r[2] == FieldV { name: "GSI1PK"@, value: AttrV::S(encode_spec(Tag::Org, o.name)) });
    assert(r[3].name == "GSI1SK"@);
    assert(r[4] == FieldV { name: "is_active"@, value: AttrV::Bool(o.active) });
    assert(rec_get(r, "PK"@) == Some(AttrV::S(encode_spec(Tag::Org, o.id))));
    lemma_rec_get_skip(r, 2, "GSI1PK"@);
    assert(rec_get(r, "GSI1PK"@) == Some(AttrV::S(encode_spec(Tag::Org, o.name))));
    lemma_rec_get_skip(r, 4, "is_active"@);
    assert(rec_get(r, "is_active"@) == Some(AttrV::Bool(o.active)));
    lemma_rec_get_skip(r, 5, "GSI2PK"@);
    assert(rec_get(r, "GSI2PK"@) is None);
    lemma_decode_encode(Tag::Org, o.id);
    lemma_decode_encode(Tag::Org, o.name);
}

impl Org {
    /// Encode this organization as its store row.
    pub fn to_record(&self) -> (r: Record)
        ensures
            r@ == org_record_v(self@),
    {
        let pk = encode_key(Tag::Org, self.id.as_str());
        let nk = encode_key(Tag::Org, self.name.as_str());
        let mut fields: Vec<Field> = Vec::new();
        fields.push(Field { name: String::from_str("PK"), value: Attr::S(pk.clone()) });
        fields.push(Field { name: String::from_str("SK"), value: Attr::S(pk) });
        fields.push(Field { name: String::from_str("GSI1PK"), value: Attr::S(nk.clone()) });
        fields.push(Field { name: String::from_str("GSI1SK"), value: Attr::S(nk) });
        fields.push(Field { name: String::from_str("is_active"), value: Attr::Bool(self.active) });
        let r = Record { fields };
        proof {
            assert(r@ =~= org_record_v(self@));
        }
        r
    }

    /// Decode a store row into an organization.
    pub fn from_record(rec: &Record) -> (r: Result<Org, DataError>)
        ensures
            match r {
                Ok(o) => org_of_record(rec@) == Some(o@),
                Err(e) => org_of_record(rec@) is None && e == (if org_key_malformed(rec@) {
                    DataError::MalformedKey
                } else {
                    DataError::CorruptRecord
                }),
            },
    {
        let pk = match rec.get_attr("PK") {
            Some(Attr::S(s)) => s,
            _ => {
                return Err(DataError::CorruptRecord);
            },
        };
        let (ptag, id) = match decode_key(pk.as_str()) {
            Ok(p) => p,
            Err(e) => {
                return Err(e);
            },
        };
        match ptag {
            Tag::Org => {},
            _ => {
                return Err(DataError::CorruptRecord);
            },
        }
        let nk = match rec.get_attr("GSI1PK") {
            Some(Attr::S(s)) => s,
            _ => {
                return Err(DataError::CorruptRecord);
            },
        };
        let (ntag, name) = match decode_key(nk.as_str()) {
            Ok(p) => p,
            Err(e) => {
                return Err(e);
            },
        };
        match ntag {
            Tag::Org => {},
            _ => {
                return Err(DataError::CorruptRecord);
            },
        }
        let active = match rec.get_attr("is_active") {
            Some(Attr::Bool(b)) => *b,
            _ => {
                return Err(DataError::CorruptRecord);
            },
        };
        Ok(Org { id, name, active })
    }

    /// Create an organization under a fresh id, stored active.
    pub fn create(store: &mut EntityStore, ids: &mut IdGen, org: &Create) -> (r: Org)
        requires
            old(ids).wf(),
            old(ids).counter < u64::MAX,
        ensures
            final(ids).wf(),
            final(ids).counter == old(ids).counter + 1,
            final(ids).issued@ == old(ids).issued@.insert(r.id@),
            !old(ids).issued@.contains(r.id@),
            r@.name == org.name@,
            r@.active == true,
            r.id@.len() == crate::id::ID_LEN,
            final(store).kv().dom() == old(store).kv().dom().insert(org_key(r.id@)),
            final(store).kv()[org_key(r.id@)]@ == org_record_v(r@),
            final(store).idx(crate::store::Index::Gsi1) == old(store).idx(
                crate::store::Index::Gsi1,
            ).insert(encode_spec(Tag::Org, r.name@), org_key(r.id@)),
            final(store).idx(crate::store::Index::Gsi2) == old(store).idx(crate::store::Index::Gsi2),
            forall|k: Seq<char>|
                k != org_key(r.id@) && old(store).kv().contains_key(k)
                    ==> final(store).kv()[k] == old(store).kv()[k],
            org_at(final(store).kv(), r.id@) == Some(r@),
    {
        let id = ids.fresh_id();
        let created = Org { id, name: org.name.clone(), active: true };
        let rec = created.to_record();
        let key = encode_key(Tag::Org, created.id.as_str());
        store.put(key, rec);
        proof {
            lemma_org_record_roundtrip(created@);
            assert(final(store).kv().dom() =~= old(store).kv().dom().insert(org_key(created.id@)));
        }
        created
    }

    /// Fetch an organization by id.
    pub fn from_id(store: &EntityStore, id: &str) -> (r: Result<Org, DataError>)
        ensures
            match r {
                Ok(o) => org_at(store.kv(), id@) == Some(o@),
                Err(e) => org_at(store.kv(), id@) is None && (e == DataError::NotFound
                    <==> !store.kv().contains_key(org_key(id@))) && (e == DataError::NotFound || e
                    == DataError::MalformedKey || e == DataError::CorruptRecord),
            },
    {
        let key = encode_key(Tag::Org, id);
        match store.get(key.as_str()) {
            None => Err(DataError::NotFound),
            Some(rec) => Org::from_record(rec),
        }
    }

    /// Remove an organization row; `NotFound` when it has no row.
    pub fn delete(store: &mut EntityStore, id: &str) -> (r: Result<(), DataError>)
        ensures
            final(store).kv() == old(store).kv().remove(org_key(id@)),
            final(store).idx(crate::store::Index::Gsi1) == old(store).idx(crate::store::Index::Gsi1),
            final(store).idx(crate::store::Index::Gsi2) == old(store).idx(crate::store::Index::Gsi2),
            r matches Ok(()) <==> old(store).kv().contains_key(org_key(id@)),
            r matches Err(e) ==> e == DataError::NotFound,
    {
        let key = encode_key(Tag::Org, id);
        store.delete(key.as_str())
    }
}

} // verus!
