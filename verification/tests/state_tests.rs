use pet_app::msg::{Request, ResultMsg};
use pet_app::pet::{Pet, KIND_CAT, KIND_DOG};
use pet_app::state::{
    apply_result, delete_selected, drain_results, select_pet, submit_form, AppState,
};

fn pet(id: u64, name: &str, age: u16, kind_id: u64) -> Pet {
    Pet { id, name: name.to_string(), age, kind_id }
}

#[test]
fn initial_state_holds_the_seeded_records() {
    let s = AppState::new();
    assert_eq!(s.pets.len(), 2);
    assert_eq!(s.pets[0], pet(1, "minka", 9, KIND_CAT));
    assert_eq!(s.pets[1], pet(2, "nala", 7, KIND_DOG));
    assert_eq!(s.selected_pet, None);
    assert_eq!(s.image_url, None);
    assert_eq!(s.form_name, "");
    assert_eq!(s.form_age, "");
    assert_eq!(s.form_kind, "");
}

#[test]
fn draining_zero_results_changes_nothing() {
    let mut s = AppState::new();
    s.selected_pet = Some(pet(1, "minka", 9, KIND_CAT));
    s.image_url = Some("https://example.invalid/cat.png".to_string());
    s.form_name = "Rex".to_string();
    let before = s.clone();
    drain_results(&mut s, Vec::new());
    assert_eq!(s, before);
}

#[test]
fn list_update_replaces_the_cached_list() {
    let mut s = AppState::new();
    apply_result(&mut s, ResultMsg::ListUpdate { pets: vec![pet(7, "rex", 3, KIND_DOG)] });
    assert_eq!(s.pets, vec![pet(7, "rex", 3, KIND_DOG)]);
}

#[test]
fn list_update_clears_a_deleted_selection() {
    let mut s = AppState::new();
    s.selected_pet = Some(pet(1, "minka", 9, KIND_CAT));
    apply_result(&mut s, ResultMsg::ListUpdate { pets: vec![pet(2, "nala", 7, KIND_DOG)] });
    assert_eq!(s.selected_pet, None);
}

#[test]
fn list_update_keeps_a_surviving_selection() {
    let mut s = AppState::new();
    s.selected_pet = Some(pet(2, "nala", 7, KIND_DOG));
    apply_result(&mut s, ResultMsg::ListUpdate { pets: vec![pet(2, "nala", 7, KIND_DOG)] });
    assert_eq!(s.selected_pet, Some(pet(2, "nala", 7, KIND_DOG)));
}

#[test]
fn selection_update_replaces_wholesale() {
    let mut s = AppState::new();
    s.selected_pet = Some(pet(1, "minka", 9, KIND_CAT));
    apply_result(&mut s, ResultMsg::SelectionUpdate { pet: Some(pet(2, "nala", 7, KIND_DOG)) });
    assert_eq!(s.selected_pet, Some(pet(2, "nala", 7, KIND_DOG)));
    apply_result(&mut s, ResultMsg::SelectionUpdate { pet: None });
    assert_eq!(s.selected_pet, None);
}

#[test]
fn image_update_replaces_wholesale_including_absent() {
    let mut s = AppState::new();
    apply_result(&mut s, ResultMsg::ImageUpdate { url: Some("https://a.invalid/1".to_string()) });
    assert_eq!(s.image_url, Some("https://a.invalid/1".to_string()));
    apply_result(&mut s, ResultMsg::ImageUpdate { url: None });
    assert_eq!(s.image_url, None);
}

#[test]
fn creation_notice_changes_no_state() {
    let mut s = AppState::new();
    let before = s.clone();
    apply_result(&mut s, ResultMsg::Created { pet: pet(9, "rex", 3, KIND_DOG) });
    assert_eq!(s, before);
}

#[test]
fn submit_with_empty_name_is_a_no_op() {
    let mut s = AppState::new();
    s.form_age = "3".to_string();
    s.form_kind = "dog".to_string();
    let before = s.clone();
    let reqs = submit_form(&mut s);
    assert!(reqs.is_empty());
    assert_eq!(s, before);
}

#[test]
fn submit_with_zero_age_is_a_no_op() {
    let mut s = AppState::new();
    s.form_name = "Rex".to_string();
    s.form_age = "0".to_string();
    s.form_kind = "dog".to_string();
    let before = s.clone();
    let reqs = submit_form(&mut s);
    assert!(reqs.is_empty());
    assert_eq!(s, before);
}

#[test]
fn submit_with_a_nul_in_the_name_is_a_no_op() {
    let mut s = AppState::new();
    s.form_name = "Re\0x".to_string();
    s.form_age = "3".to_string();
    s.form_kind = "dog".to_string();
    let before = s.clone();
    let reqs = submit_form(&mut s);
    assert!(reqs.is_empty());
    assert_eq!(s, before);
}

#[test]
fn submit_with_non_numeric_age_is_a_no_op() {
    let mut s = AppState::new();
    s.form_name = "Rex".to_string();
    s.form_age = "three".to_string();
    let before = s.clone();
    let reqs = submit_form(&mut s);
    assert!(reqs.is_empty());
    assert_eq!(s, before);
}

#[test]
fn valid_submit_emits_insert_and_image_and_clears_the_form() {
    let mut s = AppState::new();
    s.form_name = "Rex".to_string();
    s.form_age = "3".to_string();
    s.form_kind = "dog".to_string();
    let reqs = submit_form(&mut s);
    assert_eq!(reqs.len(), 2);
    match &reqs[0] {
        Request::Insert { name, age, kind_id } => {
            assert_eq!(name, "Rex");
            assert_eq!(*age, 3);
            assert_eq!(*kind_id, KIND_DOG);
        },
        other => panic!("expected an insert request, got {:?}", other),
    }
    assert_eq!(reqs[1], Request::FetchImage { kind_id: KIND_DOG });
    assert_eq!(s.form_name, "");
    assert_eq!(s.form_age, "");
    assert_eq!(s.form_kind, "");
}

#[test]
fn unrecognized_category_falls_back_to_the_default() {
    let mut s = AppState::new();
    s.form_name = "Rex".to_string();
    s.form_age = "3".to_string();
    s.form_kind = "ferret".to_string();
    let reqs = submit_form(&mut s);
    assert_eq!(reqs.len(), 2);
    assert_eq!(reqs[1], Request::FetchImage { kind_id: KIND_CAT });
}

#[test]
fn selecting_emits_fetch_one_and_fetch_image() {
    let s = AppState::new();
    let p = pet(2, "nala", 7, KIND_DOG);
    let reqs = select_pet(&s, &p);
    assert_eq!(reqs, vec![
        Request::FetchOne { id: 2 },
        Request::FetchImage { kind_id: KIND_DOG },
    ]);
}

#[test]
fn delete_needs_a_selection() {
    let mut s = AppState::new();
    assert_eq!(delete_selected(&s), None);
    s.selected_pet = Some(pet(1, "minka", 9, KIND_CAT));
    assert_eq!(delete_selected(&s), Some(Request::Delete { id: 1 }));
}

#[test]
fn last_selection_and_image_messages_win_after_full_drain() {
    let a = pet(1, "minka", 9, KIND_CAT);
    let b = pet(2, "nala", 7, KIND_DOG);
    let mut s = AppState::new();
    // Two rapid selection changes: A's image result arrives late, after B was
    // already selected; B's messages are last in channel order.
    let msgs = vec![
        ResultMsg::SelectionUpdate { pet: Some(a) },
        ResultMsg::SelectionUpdate { pet: Some(b.clone()) },
        ResultMsg::ImageUpdate { url: Some("https://a.invalid/cat".to_string()) },
        ResultMsg::ImageUpdate { url: Some("https://b.invalid/dog".to_string()) },
    ];
    drain_results(&mut s, msgs);
    assert_eq!(s.selected_pet, Some(b));
    assert_eq!(s.image_url, Some("https://b.invalid/dog".to_string()));
}
