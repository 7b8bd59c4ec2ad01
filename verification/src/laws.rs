//! The coordination laws of the core, proved over the same spec functions
//! the executable contracts use: a completed mutation leaves the cached list
//! in step with the table, a deleted selection never dangles, and the
//! last-applied selection and image messages win whatever arrived before.

use vstd::prelude::*;
use crate::pet::{Pet, PetFields, seq_contains_id};
use crate::msg::ResultMsg;
use crate::state::{AppState, apply_spec, drain_spec};
use crate::store::list_matches_table;
use crate::worker::{insert_outcome, list_only_outcome};

verus! {

/// Draining a concatenation is draining one batch after the other.
pub proof fn lemma_drain_append(s: AppState, a: Seq<ResultMsg>, b: Seq<ResultMsg>)
    ensures
        drain_spec(s, a + b) == drain_spec(drain_spec(s, a), b),
    decreases a.len(),
{
    if a.len() == 0 {
        assert(a + b =~= b);
    } else {
        assert((a + b)[0] == a[0]);
        assert((a + b).drop_first() =~= a.drop_first() + b);
        lemma_drain_append(apply_spec(s, a[0]), a.drop_first(), b);
    }
}

/// After a completed insert, the drained state's cached list is exactly the
/// table: applying the emitted creation notice, list refresh and selection
/// update, in order, leaves no drift between cache and storage.
pub proof fn lemma_insert_leaves_no_drift(
    s: AppState,
    m0: Map<u64, PetFields>,
    m1: Map<u64, PetFields>,
    name: Seq<char>,
    age: u16,
    kind_id: u64,
    out: Seq<ResultMsg>,
)
    requires
        insert_outcome(m0, m1, name, age, kind_id, out),
    ensures
        list_matches_table(drain_spec(s, out).pets@, m1),
{
    let t1 = out.drop_first();
    let t2 = t1.drop_first();
    let t3 = t2.drop_first();
    let s1 = apply_spec(s, out[0]);
    let s2 = apply_spec(s1, t1[0]);
    let s3 = apply_spec(s2, t2[0]);
    assert(t1[0] == out[1] && t2[0] == out[2] && t3.len() == 0);
    assert(drain_spec(s, out) == drain_spec(s1, t1));
    assert(drain_spec(s1, t1) == drain_spec(s2, t2));
    assert(drain_spec(s2, t2) == drain_spec(s3, t3));
    assert(drain_spec(s3, t3) == s3);
    assert(s2.pets@ == out[1]->ListUpdate_pets@);
    assert(s3.pets == s2.pets);
}

/// After a completed delete (or any completed list refresh emitted alone),
/// the drained state's cached list is exactly the table.
pub proof fn lemma_refresh_leaves_no_drift(
    s: AppState,
    m: Map<u64, PetFields>,
    out: Seq<ResultMsg>,
)
    requires
        list_only_outcome(m, out),
    ensures
        list_matches_table(drain_spec(s, out).pets@, m),
{
    let t1 = out.drop_first();
    let s1 = apply_spec(s, out[0]);
    assert(t1.len() == 0);
    assert(drain_spec(s, out) == drain_spec(s1, t1));
    assert(drain_spec(s1, t1) == s1);
}

/// Whatever sequence of results was drained before — any history of insert,
/// delete, selection and image traffic — the batch of the latest completed
/// insert leaves the cached list exactly equal to the table.
pub proof fn lemma_history_then_insert_no_drift(
    s: AppState,
    history: Seq<ResultMsg>,
    m0: Map<u64, PetFields>,
    m1: Map<u64, PetFields>,
    name: Seq<char>,
    age: u16,
    kind_id: u64,
    out: Seq<ResultMsg>,
)
    requires
        insert_outcome(m0, m1, name, age, kind_id, out),
    ensures
        list_matches_table(drain_spec(s, history + out).pets@, m1),
{
    lemma_drain_append(s, history, out);
    lemma_insert_leaves_no_drift(drain_spec(s, history), m0, m1, name, age, kind_id, out);
}

/// Whatever sequence of results was drained before, the refresh emitted by
/// the latest completed delete (or list fetch) leaves the cached list
/// exactly equal to the table.
pub proof fn lemma_history_then_refresh_no_drift(
    s: AppState,
    history: Seq<ResultMsg>,
    m: Map<u64, PetFields>,
    out: Seq<ResultMsg>,
)
    requires
        list_only_outcome(m, out),
    ensures
        list_matches_table(drain_spec(s, history + out).pets@, m),
{
    lemma_drain_append(s, history, out);
    lemma_refresh_leaves_no_drift(drain_spec(s, history), m, out);
}

/// If the entity the current selection refers to is absent from a refreshed
/// list, applying that list update clears the selection: it is never left
/// dangling.
pub proof fn lemma_deleted_selection_cleared(s: AppState, l: Vec<Pet>)
    requires
        s.selected_pet is Some,
        !seq_contains_id(l@, s.selected_pet->0.id),
    ensures
        apply_spec(s, ResultMsg::ListUpdate { pets: l }).selected_pet is None,
{
}

/// After a completed delete of the selected entity, draining the emitted
/// refresh clears the selection: the refreshed list matches a table that no
/// longer holds the identity, so the selection cannot survive it.
pub proof fn lemma_delete_clears_selection(
    s: AppState,
    m: Map<u64, PetFields>,
    id: u64,
    out: Seq<ResultMsg>,
)
    requires
        list_only_outcome(m, out),
        !m.contains_key(id),
        s.selected_pet is Some,
        s.selected_pet->0.id == id,
    ensures
        drain_spec(s, out).selected_pet is None,
{
    let t1 = out.drop_first();
    let s1 = apply_spec(s, out[0]);
    assert(t1.len() == 0);
    assert(drain_spec(s, out) == drain_spec(s1, t1));
    assert(drain_spec(s1, t1) == s1);
    let l = out[0]->ListUpdate_pets;
    if seq_contains_id(l@, id) {
        let i = choose|i: int| 0 <= i < l@.len() && l@[i].id == id;
        assert(m.contains_key(l@[i].id));
    }
}

/// The last selection update in a drained batch decides the final selection,
/// provided no later list update could clear it: whatever selection messages
/// arrived earlier, even out of order, the last one applied wins.
pub proof fn lemma_last_selection_wins(s: AppState, ms: Seq<ResultMsg>, i: int)
    requires
        0 <= i < ms.len(),
        ms[i] is SelectionUpdate,
        forall|k: int|
            i < k < ms.len() ==> !(#[trigger] ms[k] is SelectionUpdate) && !(ms[k] is ListUpdate),
    ensures
        drain_spec(s, ms).selected_pet == ms[i]->SelectionUpdate_pet,
    decreases ms.len(),
{
    let n = ms.len() as int;
    let prefix = ms.take(n - 1);
    assert(ms =~= prefix + seq![ms[n - 1]]);
    lemma_drain_append(s, prefix, seq![ms[n - 1]]);
    let mid = drain_spec(s, prefix);
    let last = seq![ms[n - 1]];
    let fin = apply_spec(mid, ms[n - 1]);
    assert(last[0] == ms[n - 1] && last.drop_first().len() == 0);
    assert(drain_spec(mid, last) == drain_spec(fin, last.drop_first()));
    assert(drain_spec(fin, last.drop_first()) == fin);
    assert(drain_spec(s, ms) == fin);
    if i == n - 1 {
    } else {
        lemma_last_selection_wins(s, prefix, i);
    }
}

/// The last image update in a drained batch decides the final image:
/// whatever image messages arrived earlier, even out of order, the last one
/// applied wins.
pub proof fn lemma_last_image_wins(s: AppState, ms: Seq<ResultMsg>, j: int)
    requires
        0 <= j < ms.len(),
        ms[j] is ImageUpdate,
        forall|k: int| j < k < ms.len() ==> !(#[trigger] ms[k] is ImageUpdate),
    ensures
        drain_spec(s, ms).image_url == ms[j]->ImageUpdate_url,
    decreases ms.len(),
{
    let n = ms.len() as int;
    let prefix = ms.take(n - 1);
    assert(ms =~= prefix + seq![ms[n - 1]]);
    lemma_drain_append(s, prefix, seq![ms[n - 1]]);
    let mid = drain_spec(s, prefix);
    let last = seq![ms[n - 1]];
    let fin = apply_spec(mid, ms[n - 1]);
    assert(last[0] == ms[n - 1] && last.drop_first().len() == 0);
    assert(drain_spec(mid, last) == drain_spec(fin, last.drop_first()));
    assert(drain_spec(fin, last.drop_first()) == fin);
    assert(drain_spec(s, ms) == fin);
    if j == n - 1 {
    } else {
        lemma_last_image_wins(s, prefix, j);
    }
}

/// Two rapid selection changes end deterministically on the later entity
/// once the drain is complete: the final selection is the last selection
/// message's and the final image the last image message's, whatever arrived
/// before and in whatever order. The worker's FIFO makes the later entity's
/// selection message the last selection-or-list message; that its image
/// message also lands last is a premise here, not a consequence — the two
/// image callbacks race, and a drain whose last image message is the earlier
/// entity's ends with that image instead.
pub proof fn lemma_rapid_selection_final_state(s: AppState, ms: Seq<ResultMsg>, i: int, j: int)
    requires
        0 <= i < ms.len(),
        ms[i] is SelectionUpdate,
        forall|k: int|
            i < k < ms.len() ==> !(#[trigger] ms[k] is SelectionUpdate) && !(ms[k] is ListUpdate),
        0 <= j < ms.len(),
        ms[j] is ImageUpdate,
        forall|k: int| j < k < ms.len() ==> !(#[trigger] ms[k] is ImageUpdate),
    ensures
        drain_spec(s, ms).selected_pet == ms[i]->SelectionUpdate_pet,
        drain_spec(s, ms).image_url == ms[j]->ImageUpdate_url,
{
    lemma_last_selection_wins(s, ms, i);
    lemma_last_image_wins(s, ms, j);
}

} // verus!
