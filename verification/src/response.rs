//! The envelope that every API response is wrapped in: a success flag, a
//! human-readable message, and the typed payload, or none.

use vstd::prelude::*;

use crate::json::{
    get_opt_json, get_req_bool, get_req_string, opt_jval, req_bool, req_str, JVal, JsonValue,
};

verus! {

/// The fixed wrapper shape of every API response.
#[derive(Debug, Clone)]
pub struct Response<T> {
    /// Whether the operation succeeded.
    pub status: bool,
    /// A human-readable message from the API.
    pub message: String,
    /// The typed payload; omitted or `null` on the wire reads as `None`.
    pub data: Option<T>,
}

/// The mathematical model of a response envelope.
pub struct ResponseV<V> {
    /// Whether the operation succeeded.
    pub status: bool,
    /// A human-readable message from the API.
    pub message: Seq<char>,
    /// The typed payload, if the wire carried one.
    pub data: Option<V>,
}

impl<T: DeepView> View for Response<T> {
    type V = ResponseV<T::V>;

    open spec fn view(&self) -> ResponseV<T::V> {
        ResponseV { status: self.status, message: self.message@, data: self.data.deep_view() }
    }
}

impl<T: DeepView> DeepView for Response<T> {
    type V = ResponseV<T::V>;

    open spec fn deep_view(&self) -> ResponseV<T::V> {
        self.view()
    }
}

/// The envelope fields of a JSON value: the success flag, the message, and
/// the raw payload, with an omitted or `null` payload read as `None`. A
/// value that is not an object, or misses the flag or the message, has no
/// envelope reading.
pub open spec fn envelope_parts_of(j: JVal) -> Option<(bool, Seq<char>, Option<JVal>)> {
    match j {
        JVal::Obj(ps) => {
            let status = req_bool(ps, "status"@);
            let message = req_str(ps, "message"@);
            let data = opt_jval(ps, "data"@);
            if status is Some && message is Some && data is Some {
                Some((status->0, message->0, data->0))
            } else {
                None
            }
        },
        _ => None,
    }
}

/// Splits a JSON value into its envelope fields, as `envelope_parts_of`
/// reads them.
pub fn envelope_parts(j: &JsonValue) -> (r: Option<(bool, String, Option<JsonValue>)>)
    ensures
        r matches Some(p) ==> envelope_parts_of(j@) == Some(
            (p.0, p.1@, p.2.deep_view()),
        ),
        r is None <==> envelope_parts_of(j@) is None,
{
    match j {
        JsonValue::Obj(ps) => {
            let status = get_req_bool(ps, "status");
            let message = get_req_string(ps, "message");
            let data = get_opt_json(ps, "data");
            match (status, message, data) {
                (Some(st), Some(msg), Some(d)) => Some((st, msg, d)),
                _ => None,
            }
        },
        _ => None,
    }
}

} // verus!
