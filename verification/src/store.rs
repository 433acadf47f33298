//! The entity store: one partitioned table of rows under tagged
//! primary keys, with up to two secondary indexes maintained from the
//! rows' index attributes. All entity types share it; the key prefix
//! disambiguates them.

use vstd::prelude::*;
use vstd::hash_map::StringHashMap;
use crate::errors::DataError;
use crate::record::{Attr, AttrV, Record, rec_get};
use crate::text::str_eq;

verus! {

/// The two secondary lookup axes.
#[derive(Clone, Copy, Debug, PartialEq, Eq, Structural)]
pub enum Index {
    Gsi1,
    Gsi2,
}

/// The row attribute that feeds each index.
pub open spec fn index_attr(idx: Index) -> Seq<char> {
    match idx {
        Index::Gsi1 => "GSI1PK"@,
        Index::Gsi2 => "GSI2PK"@,
    }
}

fn index_attr_str(idx: Index) -> (r: &'static str)
    ensures
        r@ == index_attr(idx),
{
    match idx {
        Index::Gsi1 => "GSI1PK",
        Index::Gsi2 => "GSI2PK",
    }
}

/// A map of strings, keyed and valued as sequences of characters.
pub open spec fn key_view(m: Map<Seq<char>, String>) -> Map<Seq<char>, Seq<char>> {
    Map::new(|k: Seq<char>| m.contains_key(k), |k: Seq<char>| m[k]@)
}

/// Durability of all entity rows lives here and nowhere else.
pub struct EntityStore {
    rows: StringHashMap<Record>,
    gsi1: StringHashMap<String>,
    gsi2: StringHashMap<String>,
}

impl EntityStore {
    /// The rows, by primary key.
    pub closed spec fn kv(self) -> Map<Seq<char>, Record> {
        self.rows@
    }

    /// A secondary index: index key to primary key.
    pub closed spec fn idx(self, idx: Index) -> Map<Seq<char>, Seq<char>> {
        match idx {
            Index::Gsi1 => key_view(self.gsi1@),
            Index::Gsi2 => key_view(self.gsi2@),
        }
    }

    pub fn new() -> (r: Self)
        ensures
            r.kv() == Map::<Seq<char>, Record>::empty(),
            r.idx(Index::Gsi1) == Map::<Seq<char>, Seq<char>>::empty(),
            r.idx(Index::Gsi2) == Map::<Seq<char>, Seq<char>>::empty(),
    {
        let r = EntityStore {
            rows: StringHashMap::new(),
            gsi1: StringHashMap::new(),
            gsi2: StringHashMap::new(),
        };
        proof {
            assert(r.idx(Index::Gsi1) =~= Map::<Seq<char>, Seq<char>>::empty());
            assert(r.idx(Index::Gsi2) =~= Map::<Seq<char>, Seq<char>>::empty());
        }
        r
    }

    /// Fetch a row by primary key.
    pub fn get(&self, key: &str) -> (r: Option<&Record>)
        ensures
            match r {
                Some(rec) => self.kv().contains_key(key@) && *rec == self.kv()[key@],
                None => !self.kv().contains_key(key@),
            },
    {
        self.rows.get(key)
    }

    /// Idempotent upsert: stores the row under its primary key and
    /// refreshes the secondary indexes from the row's index attributes.
    /// A row always names its own key in its `PK` attribute, as the
    /// backing store's partition key does.
    pub fn put(&mut self, key: String, rec: Record)
        requires
            rec_get(rec@, "PK"@) == Some(AttrV::S(key@)),
        ensures
            final(self).kv() == old(self).kv().insert(key@, rec),
            (match rec_get(rec@, index_attr(Index::Gsi1)) {
                Some(AttrV::S(v)) => final(self).idx(Index::Gsi1) == old(self).idx(
                    Index::Gsi1,
                ).insert(v, key@),
                _ => final(self).idx(Index::Gsi1) == old(self).idx(Index::Gsi1),
            }),
            (match rec_get(rec@, index_attr(Index::Gsi2)) {
                Some(AttrV::S(v)) => final(self).idx(Index::Gsi2) == old(self).idx(
                    Index::Gsi2,
                ).insert(v, key@),
                _ => final(self).idx(Index::Gsi2) == old(self).idx(Index::Gsi2),
            }),
    {
        match index_key_of(&rec, Index::Gsi1) {
            Some(v) => {
                let ghost pre = key_view(self.gsi1@);
                self.gsi1.insert(v, key.clone());
                proof {
                    assert(key_view(self.gsi1@) =~= pre.insert(v@, key@));
                }
            },
            None => {},
        }
        match index_key_of(&rec, Index::Gsi2) {
            Some(v) => {
                let ghost pre = key_view(self.gsi2@);
                self.gsi2.insert(v, key.clone());
                proof {
                    assert(key_view(self.gsi2@) =~= pre.insert(v@, key@));
                }
            },
            None => {},
        }
        self.rows.insert(key, rec);
    }

    /// Remove a row by primary key; `NotFound` when it has no row. The
    /// secondary indexes keep their entries; a lookup through a stale
    /// entry finds no matching row.
    pub fn delete(&mut self, key: &str) -> (r: Result<(), DataError>)
        ensures
            final(self).kv() == old(self).kv().remove(key@),
            final(self).idx(Index::Gsi1) == old(self).idx(Index::Gsi1),
            final(self).idx(Index::Gsi2) == old(self).idx(Index::Gsi2),
            r matches Ok(()) <==> old(self).kv().contains_key(key@),
            r matches Err(e) ==> e == DataError::NotFound,
    {
        if self.rows.contains_key(key) {
            self.rows.remove(key);
            Ok(())
        } else {
            proof {
                assert(self.kv().remove(key@) =~= self.kv());
            }
            Err(DataError::NotFound)
        }
    }

    /// Fetch a row through a secondary index: follows the index entry
    /// to a primary row and hands it out only if that row still carries
    /// the index key in its index attribute.
    pub fn get_by_index(&self, idx: Index, ikey: &str) -> (r: Option<&Record>)
        ensures
            match r {
                Some(rec) => self.idx(idx).contains_key(ikey@) && self.kv().contains_key(
                    self.idx(idx)[ikey@],
                ) && *rec == self.kv()[self.idx(idx)[ikey@]] && rec_get(
                    rec@,
                    index_attr(idx),
                ) == Some(AttrV::S(ikey@)),
                None => !(self.idx(idx).contains_key(ikey@) && self.kv().contains_key(
                    self.idx(idx)[ikey@],
                ) && rec_get(self.kv()[self.idx(idx)[ikey@]]@, index_attr(idx)) == Some(
                    AttrV::S(ikey@),
                )),
            },
    {
        let m = match idx {
            Index::Gsi1 => &self.gsi1,
            Index::Gsi2 => &self.gsi2,
        };
        match m.get(ikey) {
            None => None,
            Some(pk) => {
                proof {
                    assert(self.idx(idx)[ikey@] == pk@);
                }
                match self.rows.get(pk.as_str()) {
                    None => None,
                    Some(rec) => match rec.get_attr(index_attr_str(idx)) {
                        Some(a) => match a {
                            Attr::S(v) => if str_eq(v.as_str(), ikey) {
                                Some(rec)
                            } else {
                                None
                            },
                            Attr::Bool(_) => None,
                        },
                        None => None,
                    },
                }
            },
        }
    }
}

/// The string value of the row's index attribute, if it has one.
fn index_key_of(rec: &Record, idx: Index) -> (r: Option<String>)
    ensures
        match r {
            Some(v) => rec_get(rec@, index_attr(idx)) == Some(AttrV::S(v@)),
            None => !(rec_get(rec@, index_attr(idx)) matches Some(AttrV::S(_))),
        },
{
    match rec.get_attr(index_attr_str(idx)) {
        Some(a) => match a {
            Attr::S(s) => Some(s.clone()),
            Attr::Bool(_) => None,
        },
        None => None,
    }
}

} // verus!
