//! The application state and its reconciliation: the single mutable snapshot
//! owned by the presentation loop. On every tick the loop drains all pending
//! result messages and applies each atomically, in arrival order; user input
//! only emits requests and changes no state until the results arrive (the one
//! exception: a valid form submission clears the form fields immediately).

use vstd::prelude::*;
use crate::pet::{Pet, seq_contains_id, contains_id, nul_free, check_nul_free, KIND_CAT, KIND_DOG};
use crate::msg::{Request, ResultMsg};
use crate::parse::{parse_age, parse_age_spec};

verus! {

/// The snapshot consumed and produced entirely by the presentation loop:
/// the cached entity list, the selection, the cached image reference, and
/// the transient add-form fields.
#[derive(Debug, Clone, PartialEq)]
pub struct AppState {
    /// Read-only cached copy of the store's entity list.
    pub pets: Vec<Pet>,
    /// The entity currently displayed in detail, if any.
    pub selected_pet: Option<Pet>,
    /// Image reference for the current selection's category; absent means
    /// "not yet loaded" or "fetch failed", which are not distinguished.
    pub image_url: Option<String>,
    /// Add-form input: name.
    pub form_name: String,
    /// Add-form input: age, as typed.
    pub form_age: String,
    /// Add-form input: category tag, as typed.
    pub form_kind: String,
}

/// The selection after a list refresh: kept when its identity is still in the
/// new list, cleared to absent when it is not.
pub open spec fn keep_selection(sel: Option<Pet>, pets: Seq<Pet>) -> Option<Pet> {
    match sel {
        Some(p) => if seq_contains_id(pets, p.id) {
            sel
        } else {
            None
        },
        None => None,
    }
}

/// One result message applied atomically to the state.
pub open spec fn apply_spec(s: AppState, m: ResultMsg) -> AppState {
    match m {
        ResultMsg::Created { pet } => s,
        ResultMsg::ListUpdate { pets } => AppState {
            selected_pet: keep_selection(s.selected_pet, pets@),
            pets,
            image_url: s.image_url,
            form_name: s.form_name,
            form_age: s.form_age,
            form_kind: s.form_kind,
        },
        ResultMsg::SelectionUpdate { pet } => AppState {
            pets: s.pets,
            selected_pet: pet,
            image_url: s.image_url,
            form_name: s.form_name,
            form_age: s.form_age,
            form_kind: s.form_kind,
        },
        ResultMsg::ImageUpdate { url } => AppState {
            pets: s.pets,
            selected_pet: s.selected_pet,
            image_url: url,
            form_name: s.form_name,
            form_age: s.form_age,
            form_kind: s.form_kind,
        },
    }
}

/// A sequence of result messages applied in arrival order.
pub open spec fn drain_spec(s: AppState, ms: Seq<ResultMsg>) -> AppState
    decreases ms.len(),
{
    if ms.len() == 0 {
        s
    } else {
        drain_spec(apply_spec(s, ms[0]), ms.drop_first())
    }
}

impl AppState {
    /// The state at startup: the two seeded records, nothing selected, no
    /// image, empty form.
    pub fn new() -> (s: AppState)
        ensures
            s.pets@.len() == 2,
            s.pets@[0].id == 1 && s.pets@[0].name@ == "minka"@ && s.pets@[0].age == 9
                && s.pets@[0].kind_id == KIND_CAT,
            s.pets@[1].id == 2 && s.pets@[1].name@ == "nala"@ && s.pets@[1].age == 7
                && s.pets@[1].kind_id == KIND_DOG,
            s.selected_pet is None,
            s.image_url is None,
            s.form_name@.len() == 0,
            s.form_age@.len() == 0,
            s.form_kind@.len() == 0,
    {
        let mut pets: Vec<Pet> = Vec::new();
        pets.push(Pet { id: 1, name: String::from_str("minka"), age: 9, kind_id: KIND_CAT });
        pets.push(Pet { id: 2, name: String::from_str("nala"), age: 7, kind_id: KIND_DOG });
        AppState {
            pets,
            selected_pet: None,
            image_url: None,
            form_name: String::new(),
            form_age: String::new(),
            form_kind: String::new(),
        }
    }
}

/// Apply one result message to the state, atomically.
///
/// An entity-list update replaces the cached list and clears the selection
/// when its identity is absent from the new list; a selection or image update
/// replaces its field wholesale; a creation notice changes nothing.
pub fn apply_result(s: &mut AppState, m: ResultMsg)
    ensures
        *final(s) == apply_spec(*old(s), m),
{
    match m {
        ResultMsg::Created { pet: _ } => {},
        ResultMsg::ListUpdate { pets } => {
            let clear = match &s.selected_pet {
                Some(p) => !contains_id(&pets, p.id),
                None => false,
            };
            if clear {
                s.selected_pet = None;
            }
            s.pets = pets;
        },
        ResultMsg::SelectionUpdate { pet } => {
            s.selected_pet = pet;
        },
        ResultMsg::ImageUpdate { url } => {
            s.image_url = url;
        },
    }
}

/// Drain a batch of pending results, applying each in arrival order.
/// Draining zero results leaves the state unchanged.
pub fn drain_results(s: &mut AppState, msgs: Vec<ResultMsg>)
    ensures
        *final(s) == drain_spec(*old(s), msgs@),
        msgs@.len() == 0 ==> *final(s) == *old(s),
{
    let ghost s0: AppState = *s;
    let ghost all: Seq<ResultMsg> = msgs@;
    let mut rest = msgs;
    while rest.len() > 0
        invariant
            drain_spec(s0, all) == drain_spec(*s, rest@),
        decreases rest.len(),
    {
        let ghost before: Seq<ResultMsg> = rest@;
        let m = rest.remove(0);
        proof {
            assert(rest@ =~= before.drop_first());
        }
        apply_result(s, m);
    }
}

/// The add-form is valid: a non-empty name the backend can store intact
/// (no NUL character) and an age that parses to a positive value.
pub open spec fn form_valid(s: AppState) -> bool {
    &&& s.form_name@.len() > 0
    &&& nul_free(s.form_name@)
    &&& parse_age_spec(s.form_age@) matches Some(a) && a > 0
}

/// The category tag for a form input: "dog" is recognized; anything else
/// falls back to the default cat category.
pub open spec fn form_kind_id(kind: Seq<char>) -> u64 {
    if kind == "dog"@ {
        KIND_DOG
    } else {
        KIND_CAT
    }
}

/// Resolve the typed category tag to its identifier.
pub fn resolve_kind(kind: &String) -> (r: u64)
    ensures
        r == form_kind_id(kind@),
{
    let dog = String::from_str("dog");
    if kind.eq(&dog) {
        KIND_DOG
    } else {
        KIND_CAT
    }
}

/// Submit the add-form.
///
/// With an empty name, a name the backend cannot store intact, or an age
/// that does not parse to a positive value, no request is emitted and the
/// state is unchanged. Otherwise exactly an
/// insert request and an image request for the resolved category are
/// emitted, and the form fields are cleared immediately; the cached list,
/// selection and image are untouched until the results arrive.
pub fn submit_form(s: &mut AppState) -> (reqs: Vec<Request>)
    ensures
        !form_valid(*old(s)) ==> reqs@.len() == 0 && *final(s) == *old(s),
        form_valid(*old(s)) ==> {
            let kid = form_kind_id(old(s).form_kind@);
            &&& reqs@.len() == 2
            &&& reqs@[0] matches Request::Insert { name, age, kind_id }
                && name@ == old(s).form_name@
                && Some(age) == parse_age_spec(old(s).form_age@)
                && kind_id == kid
            &&& reqs@[1] == (Request::FetchImage { kind_id: kid })
            &&& final(s).form_name@.len() == 0
            &&& final(s).form_age@.len() == 0
            &&& final(s).form_kind@.len() == 0
            &&& final(s).pets == old(s).pets
            &&& final(s).selected_pet == old(s).selected_pet
            &&& final(s).image_url == old(s).image_url
        },
{
    let name_ok = !s.form_name.as_str().is_empty() && check_nul_free(s.form_name.as_str());
    let age_opt = parse_age(s.form_age.as_str());
    let age = match age_opt {
        Some(a) => a,
        None => {
            return Vec::new();
        },
    };
    if !name_ok || age == 0 {
        return Vec::new();
    }
    let kid = resolve_kind(&s.form_kind);
    let name = s.form_name.clone();
    s.form_name = String::new();
    s.form_age = String::new();
    s.form_kind = String::new();
    let mut reqs: Vec<Request> = Vec::new();
    reqs.push(Request::Insert { name, age, kind_id: kid });
    reqs.push(Request::FetchImage { kind_id: kid });
    reqs
}

/// Pick an entity from the list: emit a re-resolve request and an image
/// request for its category. The state changes only when the results arrive.
pub fn select_pet(s: &AppState, pet: &Pet) -> (reqs: Vec<Request>)
    ensures
        reqs@.len() == 2,
        reqs@[0] == (Request::FetchOne { id: pet.id }),
        reqs@[1] == (Request::FetchImage { kind_id: pet.kind_id }),
{
    let mut reqs: Vec<Request> = Vec::new();
    reqs.push(Request::FetchOne { id: pet.id });
    reqs.push(Request::FetchImage { kind_id: pet.kind_id });
    reqs
}

/// Ask for the deletion of the current selection: emit a delete request when
/// an entity is selected, nothing otherwise. The state is untouched.
pub fn delete_selected(s: &AppState) -> (r: Option<Request>)
    ensures
        match s.selected_pet {
            Some(p) => r == Some(Request::Delete { id: p.id }),
            None => r is None,
        },
{
    match &s.selected_pet {
        Some(p) => Some(Request::Delete { id: p.id }),
        None => None,
    }
}

} // verus!
