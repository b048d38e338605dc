use vstd::prelude::*;

verus! {

/// A JSON document, carried through the library untouched.
#[verifier::external_type_specification]
#[verifier::external_body]
pub struct ExJsonValue(serde_json::Value);

/// HTTP status of a successful reply.
pub const STATUS_OK: u16 = 200;

/// HTTP status of a reply to a request the client got wrong.
pub const STATUS_BAD_REQUEST: u16 = 400;

/// HTTP status of a reply to a request the service failed on.
pub const STATUS_INTERNAL_SERVER_ERROR: u16 = 500;

/// The envelope of every reply: `code` is 0 on success and 1 on failure;
/// a success carries `data`, a failure carries `error`.
#[derive(Debug)]
pub struct ApiResponse<T> {
    pub code: i32,
    pub data: Option<T>,
    pub error: Option<String>,
}

/// An envelope that reports a failure with the message `msg`.
pub open spec fn is_failure<T>(resp: ApiResponse<T>, msg: Seq<char>) -> bool {
    &&& resp.code == 1
    &&& resp.data is None
    &&& resp.error matches Some(e) && e@ == msg
}

/// An envelope that reports a success carrying `val`.
pub open spec fn is_success<T>(resp: ApiResponse<T>, val: T) -> bool {
    &&& resp.code == 0
    &&& resp.data == Some(val)
    &&& resp.error is None
}

/// The envelope and its status agree: code 0, data and status 200 go
/// together, and code 1, an error message and a 4xx/5xx status go together.
pub open spec fn is_consistent<T>(status: u16, resp: ApiResponse<T>) -> bool {
    ||| status == STATUS_OK && resp.code == 0 && resp.data is Some && resp.error is None
    ||| 400 <= status < 600 && resp.code == 1 && resp.data is None && resp.error is Some
}

/// In a consistent reply, the code is 0 exactly when the status is 200, and
/// exactly one of the data and the error is present.
pub proof fn lemma_consistent_reply<T>(status: u16, resp: ApiResponse<T>)
    requires
        is_consistent(status, resp),
    ensures
        resp.code == 0 <==> status == STATUS_OK,
        resp.data is Some <==> resp.error is None,
        resp.code == 0 <==> resp.data is Some,
{
}

/// Reply 400 with `msg` as the error.
pub fn bad_request(msg: String) -> (r: (u16, ApiResponse<serde_json::Value>))
    ensures
        r.0 == STATUS_BAD_REQUEST,
        is_failure(r.1, msg@),
        is_consistent(r.0, r.1),
{
    let resp = ApiResponse { code: 1, data: None, error: Some(msg) };
    (STATUS_BAD_REQUEST, resp)
}

/// Reply 500 with `msg` as the error.
pub fn internal_error(msg: String) -> (r: (u16, ApiResponse<serde_json::Value>))
    ensures
        r.0 == STATUS_INTERNAL_SERVER_ERROR,
        is_failure(r.1, msg@),
        is_consistent(r.0, r.1),
{
    let resp = ApiResponse { code: 1, data: None, error: Some(msg) };
    (STATUS_INTERNAL_SERVER_ERROR, resp)
}

/// Reply 200 with `val` as the data.
pub fn ok_with_json(val: serde_json::Value) -> (r: (u16, ApiResponse<serde_json::Value>))
    ensures
        r.0 == STATUS_OK,
        is_success(r.1, val),
        is_consistent(r.0, r.1),
{
    let resp = ApiResponse { code: 0, data: Some(val), error: None };
    (STATUS_OK, resp)
}

} // verus!
