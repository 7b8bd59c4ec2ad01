//! The background worker's dispatch: one request consumed at a time, each
//! handled by exactly one gateway or image operation. Every mutating
//! operation is followed, within the same handler, by a re-fetch of the full
//! entity list, so the presentation loop never observes a stale list beside a
//! freshly selected entity. Any failure silently drops the request: no
//! result message is emitted, no retry, no crash.

use vstd::prelude::*;
use crate::pet::{Pet, PetFields, pet_fields, pet_eqv, nul_free, check_nul_free};
use crate::msg::{Request, ResultMsg};
use crate::store::{Store, list_matches_table};

verus! {

/// The emission of a completed list fetch: exactly one list update, matching
/// the table.
pub open spec fn list_only_outcome(m: Map<u64, PetFields>, out: Seq<ResultMsg>) -> bool {
    &&& out.len() == 1
    &&& out[0] is ListUpdate
    &&& list_matches_table(out[0]->ListUpdate_pets@, m)
}

/// The emission of a completed re-resolve: exactly one selection update,
/// carrying the table's record for the identity, or absent when the identity
/// is not in the table.
pub open spec fn fetch_one_outcome(m: Map<u64, PetFields>, id: u64, out: Seq<ResultMsg>) -> bool {
    &&& out.len() == 1
    &&& out[0] is SelectionUpdate
    &&& match out[0]->SelectionUpdate_pet {
        Some(p) => m.contains_key(id) && p.id == id && m[id] == pet_fields(p),
        None => !m.contains_key(id),
    }
}

/// The emission of a completed insert: the created record under a fresh
/// identity, then the refreshed list, then a selection update to the created
/// record.
pub open spec fn insert_outcome(
    m0: Map<u64, PetFields>,
    m1: Map<u64, PetFields>,
    name: Seq<char>,
    age: u16,
    kind_id: u64,
    out: Seq<ResultMsg>,
) -> bool {
    &&& out.len() == 3
    &&& out[0] is Created
    &&& out[1] is ListUpdate
    &&& out[2] is SelectionUpdate
    &&& {
        let p = out[0]->Created_pet;
        &&& p.name@ == name
        &&& p.age == age
        &&& p.kind_id == kind_id
        &&& !m0.contains_key(p.id)
        &&& m1 == m0.insert(p.id, (name, age, kind_id))
        &&& list_matches_table(out[1]->ListUpdate_pets@, m1)
        &&& out[2]->SelectionUpdate_pet matches Some(q) && pet_eqv(q, p)
    }
}

/// Handle one request against the store the worker owns.
///
/// Fetches leave the table untouched and emit their single result; insert
/// and delete mutate the table, re-fetch the list within the same handler,
/// and emit the messages of their outcome; an image request is not a store
/// operation and emits nothing here. On any gateway failure — including a
/// name the backend cannot store intact — nothing is emitted, and the table
/// holds at most the completed part of the operation.
pub fn handle_request(store: &mut Store, req: &Request) -> (out: Vec<ResultMsg>)
    ensures
        match *req {
            Request::FetchAll => final(store)@ == old(store)@ && (out@.len() == 0
                || list_only_outcome(final(store)@, out@)),
            Request::FetchOne { id } => final(store)@ == old(store)@ && (out@.len() == 0
                || fetch_one_outcome(final(store)@, id, out@)),
            Request::Insert { ref name, age, kind_id } => {
                &&& (insert_outcome(old(store)@, final(store)@, name@, age, kind_id, out@) || (
                out@.len() == 0 && (final(store)@ == old(store)@ || exists|id: u64|
                    !old(store)@.contains_key(id) && final(store)@ == old(store)@.insert(
                        id,
                        (name@, age, kind_id),
                    ))))
                &&& (!nul_free(name@) ==> out@.len() == 0 && final(store)@ == old(store)@)
            },
            Request::Delete { id } => {
                ||| (old(store)@.contains_key(id) && final(store)@ == old(store)@.remove(id)
                    && list_only_outcome(final(store)@, out@))
                ||| (out@.len() == 0 && (final(store)@ == old(store)@
                    || final(store)@ == old(store)@.remove(id)))
            },
            Request::FetchImage { kind_id: _ } => final(store)@ == old(store)@ && out@.len() == 0,
        },
{
    match req {
        Request::FetchAll => {
            match store.list() {
                Ok(l) => {
                    let mut out: Vec<ResultMsg> = Vec::new();
                    out.push(ResultMsg::ListUpdate { pets: l });
                    out
                },
                Err(_) => Vec::new(),
            }
        },
        Request::FetchOne { id } => {
            match store.get_by_id(*id) {
                Ok(o) => {
                    let mut out: Vec<ResultMsg> = Vec::new();
                    out.push(ResultMsg::SelectionUpdate { pet: o });
                    out
                },
                Err(_) => Vec::new(),
            }
        },
        Request::Insert { name, age, kind_id } => {
            if !check_nul_free(name.as_str()) {
                // A name the backend cannot store intact is dropped like any
                // other failed storage operation: nothing is emitted.
                return Vec::new();
            }
            match store.insert(name.as_str(), *age, *kind_id) {
                Err(_) => Vec::new(),
                Ok(p) => {
                    match store.list() {
                        Err(_) => Vec::new(),
                        Ok(l) => {
                            let sel = Pet {
                                id: p.id,
                                name: p.name.clone(),
                                age: p.age,
                                kind_id: p.kind_id,
                            };
                            let mut out: Vec<ResultMsg> = Vec::new();
                            out.push(ResultMsg::Created { pet: p });
                            out.push(ResultMsg::ListUpdate { pets: l });
                            out.push(ResultMsg::SelectionUpdate { pet: Some(sel) });
                            out
                        },
                    }
                },
            }
        },
        Request::Delete { id } => {
            match store.delete_by_id(*id) {
                Err(_) => Vec::new(),
                Ok(()) => {
                    match store.list() {
                        Err(_) => Vec::new(),
                        Ok(l) => {
                            let mut out: Vec<ResultMsg> = Vec::new();
                            out.push(ResultMsg::ListUpdate { pets: l });
                            out
                        },
                    }
                },
            }
        },
        Request::FetchImage { kind_id: _ } => Vec::new(),
    }
}

} // verus!
