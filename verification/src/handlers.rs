use vstd::prelude::*;
use crate::item::DeleteRequest;
use crate::item::Item;
use crate::response::classify_delete;
use crate::response::classify_insert;
use crate::response::classify_update;
use crate::response::HttpResponse;
use crate::response::ResponseBody;
use crate::response::STATUS_CREATED;
use crate::response::STATUS_NOT_FOUND;
use crate::response::STATUS_OK;
use crate::store::count_name;
use crate::store::delete_models;
use crate::store::models_of;
use crate::store::update_models;
use crate::store::Store;

verus! {

/// The create operation: insert the item, then normalize the outcome.
/// The inserted record is appended to the collection, and the response is
/// the creation-success status with its message.
pub fn create_item(store: &mut Store, item: Item) -> (r: HttpResponse)
    ensures
        final(store)@ == old(store)@.push(item@),
        r.status == STATUS_CREATED,
        r.body matches ResponseBody::Message(m) && m@ == "Item created successfully"@,
{
    store.insert(item);
    classify_insert(Ok(())).to_http_response()
}

/// The list operation: materialize every record into an ordered sequence
/// and respond with ordinary-success status, even when the collection is
/// empty. The collection itself is never changed by a list.
pub fn get_items(store: &Store) -> (r: HttpResponse)
    ensures
        r.status == STATUS_OK,
        r.body is Items,
        r.listed_models() == store@,
{
    let items = store.find_all();
    HttpResponse { status: STATUS_OK, body: ResponseBody::Items(items) }
}

/// The update operation: set the description of every record matching the
/// item's name, then normalize the matched count. A positive count is
/// ordinary success; zero matches is not-found.
pub fn update_item(store: &mut Store, item: Item) -> (r: HttpResponse)
    ensures
        final(store)@ == update_models(old(store)@, item.name@, item.description@),
        count_name(old(store)@, item.name@) > 0 ==> r.status == STATUS_OK
            && (r.body matches ResponseBody::Message(m)
                && m@ == "Item updated successfully"@),
        count_name(old(store)@, item.name@) == 0 ==> r.status == STATUS_NOT_FOUND
            && (r.body matches ResponseBody::Message(m) && m@ == "Item not found"@),
{
    let matched = store.update_by_name(&item.name, &item.description);
    classify_update(Ok(matched as u64)).to_http_response()
}

/// The delete operation: remove every record matching the requested name,
/// then normalize the deleted count. A positive count is ordinary success;
/// zero deletions is not-found.
pub fn delete_item(store: &mut Store, request: DeleteRequest) -> (r: HttpResponse)
    ensures
        final(store)@ == delete_models(old(store)@, request@),
        count_name(old(store)@, request@) > 0 ==> r.status == STATUS_OK
            && (r.body matches ResponseBody::Message(m)
                && m@ == "Item deleted successfully"@),
        count_name(old(store)@, request@) == 0 ==> r.status == STATUS_NOT_FOUND
            && (r.body matches ResponseBody::Message(m) && m@ == "Item not found"@),
{
    let deleted = store.delete_by_name(&request.name);
    classify_delete(Ok(deleted as u64)).to_http_response()
}

} // verus!
