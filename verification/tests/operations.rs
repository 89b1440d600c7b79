use item_api::handlers::create_item;
use item_api::handlers::delete_item;
use item_api::handlers::get_items;
use item_api::handlers::update_item;
use item_api::item::DeleteRequest;
use item_api::item::Item;
use item_api::response::HttpResponse;
use item_api::response::ResponseBody;
use item_api::store::Store;

fn item(name: &str, description: &str) -> Item {
    Item { name: name.to_owned(), description: description.to_owned() }
}

fn message_of(r: &HttpResponse) -> &str {
    match &r.body {
        ResponseBody::Message(m) => m.as_str(),
        ResponseBody::Items(_) => panic!("expected a message body"),
    }
}

fn items_of(r: HttpResponse) -> Vec<Item> {
    match r.body {
        ResponseBody::Items(v) => v,
        ResponseBody::Message(_) => panic!("expected a list body"),
    }
}

#[test]
fn scenario_full_lifecycle() {
    let mut store = Store::new();

    let r = create_item(&mut store, item("widget", "a thing"));
    assert_eq!(r.status, 201);
    assert_eq!(message_of(&r), "Item created successfully");

    let r = update_item(&mut store, item("widget", "a better thing"));
    assert_eq!(r.status, 200);
    assert_eq!(message_of(&r), "Item updated successfully");

    let r = get_items(&store);
    assert_eq!(r.status, 200);
    let listed = items_of(r);
    assert_eq!(listed.len(), 1);
    assert_eq!(listed[0].name, "widget");
    assert_eq!(listed[0].description, "a better thing");

    let r = delete_item(&mut store, DeleteRequest { name: "widget".to_owned() });
    assert_eq!(r.status, 200);
    assert_eq!(message_of(&r), "Item deleted successfully");

    let r = delete_item(&mut store, DeleteRequest { name: "widget".to_owned() });
    assert_eq!(r.status, 404);
    assert_eq!(message_of(&r), "Item not found");
}

#[test]
fn create_then_list_includes_the_item() {
    let mut store = Store::new();
    create_item(&mut store, item("a", "first"));
    create_item(&mut store, item("b", "second"));
    let listed = items_of(get_items(&store));
    assert_eq!(listed.len(), 2);
    assert_eq!(listed[0].name, "a");
    assert_eq!(listed[0].description, "first");
    assert_eq!(listed[1].name, "b");
    assert_eq!(listed[1].description, "second");
}

#[test]
fn list_on_empty_collection_is_success() {
    let store = Store::new();
    let r = get_items(&store);
    assert_eq!(r.status, 200);
    assert!(items_of(r).is_empty());
}

#[test]
fn update_missing_name_yields_not_found() {
    let mut store = Store::new();
    create_item(&mut store, item("present", "here"));
    let r = update_item(&mut store, item("absent", "new text"));
    assert_eq!(r.status, 404);
    assert_eq!(message_of(&r), "Item not found");
    let listed = items_of(get_items(&store));
    assert_eq!(listed.len(), 1);
    assert_eq!(listed[0].description, "here");
}

#[test]
fn delete_missing_name_yields_not_found() {
    let mut store = Store::new();
    create_item(&mut store, item("present", "here"));
    let r = delete_item(&mut store, DeleteRequest { name: "absent".to_owned() });
    assert_eq!(r.status, 404);
    assert_eq!(message_of(&r), "Item not found");
    assert_eq!(items_of(get_items(&store)).len(), 1);
}

#[test]
fn update_changes_matching_and_leaves_others() {
    let mut store = Store::new();
    create_item(&mut store, item("a", "one"));
    create_item(&mut store, item("b", "two"));
    let r = update_item(&mut store, item("a", "changed"));
    assert_eq!(r.status, 200);
    let listed = items_of(get_items(&store));
    assert_eq!(listed.len(), 2);
    assert_eq!(listed[0].name, "a");
    assert_eq!(listed[0].description, "changed");
    assert_eq!(listed[1].name, "b");
    assert_eq!(listed[1].description, "two");
}

#[test]
fn update_touches_every_record_with_the_name() {
    let mut store = Store::new();
    create_item(&mut store, item("dup", "one"));
    create_item(&mut store, item("dup", "two"));
    create_item(&mut store, item("other", "three"));
    let matched = store.update_by_name(&"dup".to_owned(), &"same".to_owned());
    assert_eq!(matched, 2);
    let listed = store.find_all();
    assert_eq!(listed[0].description, "same");
    assert_eq!(listed[1].description, "same");
    assert_eq!(listed[2].description, "three");
}

#[test]
fn delete_removes_all_and_only_matching_records() {
    let mut store = Store::new();
    create_item(&mut store, item("dup", "one"));
    create_item(&mut store, item("keep", "two"));
    create_item(&mut store, item("dup", "three"));
    let deleted = store.delete_by_name(&"dup".to_owned());
    assert_eq!(deleted, 2);
    let listed = store.find_all();
    assert_eq!(listed.len(), 1);
    assert_eq!(listed[0].name, "keep");
    assert_eq!(listed[0].description, "two");
}

#[test]
fn repeated_delete_yields_not_found() {
    let mut store = Store::new();
    create_item(&mut store, item("once", "here"));
    let r = delete_item(&mut store, DeleteRequest { name: "once".to_owned() });
    assert_eq!(r.status, 200);
    let r = delete_item(&mut store, DeleteRequest { name: "once".to_owned() });
    assert_eq!(r.status, 404);
    assert_eq!(message_of(&r), "Item not found");
}
