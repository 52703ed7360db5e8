//! The request handlers' decisions and the envelope of their JSON replies.
use vstd::prelude::*;

pub mod app;
pub mod auth;

verus! {

/// The envelope of the authentication replies: `code` 0 with `msg`
/// `"success"` and the data, or `code` 1 with the error's text and no data.
pub struct ApiResult<T> {
    pub code: i32,
    pub msg: String,
    pub data: Option<T>,
}

/// Whether `r` is the successful envelope of `data`.
pub open spec fn is_success_of<T>(r: ApiResult<T>, data: T) -> bool {
    &&& r.code == 0
    &&& r.msg@ == "success"@
    &&& r.data == Some(data)
}

/// Whether `r` is the failed envelope with the text `msg`.
pub open spec fn is_error_of<T>(r: ApiResult<T>, msg: Seq<char>) -> bool {
    &&& r.code == 1
    &&& r.msg@ == msg
    &&& r.data is None
}

impl<T> ApiResult<T> {
    /// The successful envelope of `data`.
    pub fn success(data: T) -> (res: ApiResult<T>)
        ensures
            is_success_of(res, data),
    {
        ApiResult { code: 0, msg: String::from_str("success"), data: Some(data) }
    }

    /// The failed envelope whose text is `err` as displayed.
    pub fn error<E: core::fmt::Display + ?Sized>(err: &E) -> (res: ApiResult<T>)
        ensures
            res.code == 1,
            res.data is None,
            vstd::string::to_string_from_display_ensures::<E>(err, res.msg),
    {
        ApiResult { code: 1, msg: err.to_string(), data: None }
    }
}

/// The text that the health check answers: the fixed greeting followed by
/// the server's current local time as formatted by the caller.
pub fn health_message(now: &str) -> (res: String)
    ensures
        res@ == "healthy! Server current time is: "@ + now@,
{
    let greeting = String::from_str("healthy! Server current time is: ");
    greeting.concat(now)
}

} // verus!
