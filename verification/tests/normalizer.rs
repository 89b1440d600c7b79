use item_api::response::classify_delete;
use item_api::response::classify_insert;
use item_api::response::classify_update;
use item_api::response::ApiResponse;
use item_api::response::HttpResponse;
use item_api::response::PersistenceError;
use item_api::response::ResponseBody;

fn status_and_message(r: HttpResponse) -> (u16, String) {
    match r.body {
        ResponseBody::Message(m) => (r.status, m),
        ResponseBody::Items(_) => panic!("expected a message body"),
    }
}

#[test]
fn normalizer_maps_each_outcome_category() {
    let r = ApiResponse::Success("s".to_owned()).to_http_response();
    assert_eq!(status_and_message(r), (200, "s".to_owned()));
    let r = ApiResponse::Created("c".to_owned()).to_http_response();
    assert_eq!(status_and_message(r), (201, "c".to_owned()));
    let r = ApiResponse::NotFound("n".to_owned()).to_http_response();
    assert_eq!(status_and_message(r), (404, "n".to_owned()));
    let r = ApiResponse::InternalServerError("e".to_owned()).to_http_response();
    assert_eq!(status_and_message(r), (500, "e".to_owned()));
}

#[test]
fn insert_outcomes_classify() {
    let r = classify_insert(Ok(())).to_http_response();
    assert_eq!(status_and_message(r), (201, "Item created successfully".to_owned()));
    let r = classify_insert(Err(PersistenceError)).to_http_response();
    assert_eq!(status_and_message(r), (500, "Failed to create item".to_owned()));
}

#[test]
fn update_outcomes_classify() {
    let r = classify_update(Ok(3)).to_http_response();
    assert_eq!(status_and_message(r), (200, "Item updated successfully".to_owned()));
    let r = classify_update(Ok(0)).to_http_response();
    assert_eq!(status_and_message(r), (404, "Item not found".to_owned()));
    let r = classify_update(Err(PersistenceError)).to_http_response();
    assert_eq!(status_and_message(r), (500, "Failed to update item".to_owned()));
}

#[test]
fn delete_outcomes_classify() {
    let r = classify_delete(Ok(1)).to_http_response();
    assert_eq!(status_and_message(r), (200, "Item deleted successfully".to_owned()));
    let r = classify_delete(Ok(0)).to_http_response();
    assert_eq!(status_and_message(r), (404, "Item not found".to_owned()));
    let r = classify_delete(Err(PersistenceError)).to_http_response();
    assert_eq!(status_and_message(r), (500, "Failed to delete item".to_owned()));
}
