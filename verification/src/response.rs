use vstd::prelude::*;
use crate::item::Item;
use crate::item::ItemModel;

verus! {

/// Ordinary success.
pub const STATUS_OK: u16 = 200;

/// Creation success.
pub const STATUS_CREATED: u16 = 201;

/// The named record does not exist.
pub const STATUS_NOT_FOUND: u16 = 404;

/// A persistence call failed.
pub const STATUS_INTERNAL_ERROR: u16 = 500;

/// Failure of a single persistence call, as reported by the store driver
/// (timeout, write conflict, network error). The cause is not distinguished.
pub struct PersistenceError;

/// Classification of the result of one persistence call, together with a
/// human-readable message. Transient: discarded after normalization into
/// a transport response.
pub enum ApiResponse {
    Success(String),
    Created(String),
    NotFound(String),
    InternalServerError(String),
}

/// Body of a transport-level response: a plain message, or the full list
/// of items for the list operation.
pub enum ResponseBody {
    Message(String),
    Items(Vec<Item>),
}

/// A transport-level response: a numeric status and a body.
pub struct HttpResponse {
    pub status: u16,
    pub body: ResponseBody,
}

impl HttpResponse {
    /// The models of the listed items, where the body is a list.
    pub open spec fn listed_models(&self) -> Seq<ItemModel>
        recommends
            self.body is Items,
    {
        match self.body {
            ResponseBody::Items(v) => v@.map_values(|i: Item| i@),
            ResponseBody::Message(_) => Seq::empty(),
        }
    }
}

impl ApiResponse {
    /// The transport status that this classification normalizes to.
    pub open spec fn status_of(&self) -> u16 {
        match *self {
            ApiResponse::Success(_) => STATUS_OK,
            ApiResponse::Created(_) => STATUS_CREATED,
            ApiResponse::NotFound(_) => STATUS_NOT_FOUND,
            ApiResponse::InternalServerError(_) => STATUS_INTERNAL_ERROR,
        }
    }

    /// The message that this classification carries.
    pub open spec fn message_of(&self) -> Seq<char> {
        match *self {
            ApiResponse::Success(m) => m@,
            ApiResponse::Created(m) => m@,
            ApiResponse::NotFound(m) => m@,
            ApiResponse::InternalServerError(m) => m@,
        }
    }

    /// The response normalizer: each classification maps deterministically
    /// to a status category, the body carrying the message text.
    pub fn to_http_response(&self) -> (r: HttpResponse)
        ensures
            r.status == self.status_of(),
            r.body matches ResponseBody::Message(m) && m@ == self.message_of(),
    {
        match self {
            ApiResponse::Success(msg) => HttpResponse {
                status: STATUS_OK,
                body: ResponseBody::Message(msg.clone()),
            },
            ApiResponse::Created(msg) => HttpResponse {
                status: STATUS_CREATED,
                body: ResponseBody::Message(msg.clone()),
            },
            ApiResponse::NotFound(msg) => HttpResponse {
                status: STATUS_NOT_FOUND,
                body: ResponseBody::Message(msg.clone()),
            },
            ApiResponse::InternalServerError(msg) => HttpResponse {
                status: STATUS_INTERNAL_ERROR,
                body: ResponseBody::Message(msg.clone()),
            },
        }
    }
}

/// Interpret the outcome of the insert issued by the create operation:
/// any success is `Created`, any driver failure is `InternalServerError`.
pub fn classify_insert(outcome: Result<(), PersistenceError>) -> (r: ApiResponse)
    ensures
        outcome is Ok ==> (r matches ApiResponse::Created(m)
            && m@ == "Item created successfully"@),
        outcome is Err ==> (r matches ApiResponse::InternalServerError(m)
            && m@ == "Failed to create item"@),
{
    match outcome {
        Ok(_) => ApiResponse::Created("Item created successfully".to_owned()),
        Err(_) => ApiResponse::InternalServerError("Failed to create item".to_owned()),
    }
}

/// Interpret the outcome of the update issued by the update operation:
/// the store reports how many documents matched; zero matches means the
/// named record does not exist.
pub fn classify_update(outcome: Result<u64, PersistenceError>) -> (r: ApiResponse)
    ensures
        outcome matches Ok(n) && n > 0 ==> (r matches ApiResponse::Success(m)
            && m@ == "Item updated successfully"@),
        outcome matches Ok(n) && n == 0 ==> (r matches ApiResponse::NotFound(m)
            && m@ == "Item not found"@),
        outcome is Err ==> (r matches ApiResponse::InternalServerError(m)
            && m@ == "Failed to update item"@),
{
    match outcome {
        Ok(n) => {
            if n > 0 {
                ApiResponse::Success("Item updated successfully".to_owned())
            } else {
                ApiResponse::NotFound("Item not found".to_owned())
            }
        },
        Err(_) => ApiResponse::InternalServerError("Failed to update item".to_owned()),
    }
}

/// Interpret the outcome of the delete issued by the delete operation:
/// the store reports how many documents were deleted; zero means the
/// named record does not exist.
pub fn classify_delete(outcome: Result<u64, PersistenceError>) -> (r: ApiResponse)
    ensures
        outcome matches Ok(n) && n > 0 ==> (r matches ApiResponse::Success(m)
            && m@ == "Item deleted successfully"@),
        outcome matches Ok(n) && n == 0 ==> (r matches ApiResponse::NotFound(m)
            && m@ == "Item not found"@),
        outcome is Err ==> (r matches ApiResponse::InternalServerError(m)
            && m@ == "Failed to delete item"@),
{
    match outcome {
        Ok(n) => {
            if n > 0 {
                ApiResponse::Success("Item deleted successfully".to_owned())
            } else {
                ApiResponse::NotFound("Item not found".to_owned())
            }
        },
        Err(_) => ApiResponse::InternalServerError("Failed to delete item".to_owned()),
    }
}

} // verus!
