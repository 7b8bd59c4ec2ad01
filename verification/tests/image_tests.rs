use pet_app::image::{
    extract_string_field, image_endpoint, image_response_to_result, image_url_field,
};
use pet_app::msg::ResultMsg;
use pet_app::pet::{KIND_CAT, KIND_DOG};

#[test]
fn the_dog_category_uses_the_dog_endpoint() {
    assert_eq!(image_endpoint(KIND_DOG), "https://dog.ceo/api/breeds/image/random");
    assert_eq!(image_url_field(KIND_DOG), "message");
}

#[test]
fn the_cat_category_uses_the_cat_endpoint() {
    assert_eq!(image_endpoint(KIND_CAT), "https://api.thecatapi.com/v1/images/search");
    assert_eq!(image_url_field(KIND_CAT), "url");
}

#[test]
fn an_unknown_category_falls_back_to_the_cat_endpoint() {
    assert_eq!(image_endpoint(42), "https://api.thecatapi.com/v1/images/search");
    assert_eq!(image_url_field(42), "url");
}

#[test]
fn a_dog_body_yields_its_message_field() {
    let body = r#"{"message":"https://images.dog.ceo/breeds/hound/n1.jpg","status":"success"}"#;
    assert_eq!(
        extract_string_field(body, "message"),
        Some("https://images.dog.ceo/breeds/hound/n1.jpg".to_string())
    );
}

#[test]
fn a_cat_body_yields_its_url_field() {
    let body = r#"[{"id":"abc","url":"https://cdn2.thecatapi.com/images/1.jpg","width":600}]"#;
    assert_eq!(
        extract_string_field(body, "url"),
        Some("https://cdn2.thecatapi.com/images/1.jpg".to_string())
    );
}

#[test]
fn a_missing_field_yields_no_value() {
    let body = r#"{"status":"error"}"#;
    assert_eq!(extract_string_field(body, "message"), None);
}

#[test]
fn an_unterminated_value_yields_no_value() {
    let body = r#"{"message":"https://images.dog.ceo/abc"#;
    assert_eq!(extract_string_field(body, "message"), None);
}

#[test]
fn the_first_occurrence_wins() {
    let body = r#"{"url":"first","url":"second"}"#;
    assert_eq!(extract_string_field(body, "url"), Some("first".to_string()));
}

#[test]
fn an_empty_value_is_still_a_value() {
    let body = r#"{"url":""}"#;
    assert_eq!(extract_string_field(body, "url"), Some("".to_string()));
}

#[test]
fn an_empty_body_yields_no_value() {
    assert_eq!(extract_string_field("", "url"), None);
}

#[test]
fn a_fetched_body_becomes_one_image_update() {
    let body = r#"{"message":"https://images.dog.ceo/breeds/hound/n1.jpg","status":"success"}"#;
    assert_eq!(
        image_response_to_result(KIND_DOG, Some(body)),
        ResultMsg::ImageUpdate {
            url: Some("https://images.dog.ceo/breeds/hound/n1.jpg".to_string())
        }
    );
}

#[test]
fn a_failed_fetch_becomes_an_absent_image_update() {
    assert_eq!(image_response_to_result(KIND_DOG, None), ResultMsg::ImageUpdate { url: None });
    assert_eq!(
        image_response_to_result(KIND_CAT, Some("not json at all")),
        ResultMsg::ImageUpdate { url: None }
    );
}
