//! The replies of the router's own handlers: the home page, and what a
//! path that no route serves is answered.

use vstd::prelude::*;
use crate::error::{BodyKind, HttpReply, STATUS_NOT_FOUND, STATUS_OK};
use crate::text::{decimal_int, decimal_text, json_quote, json_string};

verus! {

/// The envelope of a JSON reply: a code, a message and optional data.
#[derive(Clone, Debug, PartialEq, Eq)]
pub struct Reply<T> {
    pub code: i32,
    pub message: String,
    pub data: Option<T>,
}

/// The empty JSON object, `{}`.
#[derive(Clone, Copy, Debug, PartialEq, Eq)]
pub struct EmptyObject {}

/// The JSON text of a reply whose data, where present, is the empty object:
/// its fields in declaration order, the data as `{}` or `null`.
pub open spec fn spec_reply_json(code: i32, message: Seq<char>, has_data: bool) -> Seq<char> {
    "{\"code\":"@ + decimal_int(code as int) + ",\"message\":"@ + json_quote(message)
        + ",\"data\":"@ + (if has_data { "{}"@ } else { "null"@ }) + "}"@
}

/// Whatever the code and message, the envelope ends with its data member:
/// `{}` then the closing brace where there is data, `null` then the closing
/// brace where there is none.
pub proof fn lemma_reply_json_data(code: i32, message: Seq<char>, has_data: bool)
    ensures
        ({
            let j = spec_reply_json(code, message, has_data);
            has_data ==> j.len() >= 3 && j.subrange(j.len() - 3, j.len() as int) == seq!['{', '}', '}']
        }),
        ({
            let j = spec_reply_json(code, message, has_data);
            !has_data ==> j.len() >= 5
                && j.subrange(j.len() - 5, j.len() as int) == seq!['n', 'u', 'l', 'l', '}']
        }),
{
    reveal_strlit("{}");
    reveal_strlit("null");
    reveal_strlit("}");
    let j = spec_reply_json(code, message, has_data);
    let head = "{\"code\":"@ + decimal_int(code as int) + ",\"message\":"@ + json_quote(message)
        + ",\"data\":"@;
    if has_data {
        assert(j == head + "{}"@ + "}"@);
        assert(j.subrange(j.len() - 3, j.len() as int) =~= seq!['{', '}', '}']);
    } else {
        assert(j == head + "null"@ + "}"@);
        assert(j.subrange(j.len() - 5, j.len() as int) =~= seq!['n', 'u', 'l', 'l', '}']);
    }
}

impl Reply<EmptyObject> {
    /// The JSON text of this reply.
    pub fn to_json(&self) -> (j: String)
        ensures
            j@ == spec_reply_json(self.code, self.message@, self.data is Some),
    {
        let mut out = String::from_str("{\"code\":");
        let code = decimal_text(self.code as i64);
        out.append(code.as_str());
        out.append(",\"message\":");
        let message = json_string(self.message.as_str());
        out.append(message.as_str());
        out.append(",\"data\":");
        match &self.data {
            Some(_) => out.append("{}"),
            None => out.append("null"),
        }
        out.append("}");
        out
    }
}

/// The text of the home page.
pub open spec fn home_text() -> Seq<char> {
    "hello,bff"@
}

/// The message that answers a path no route serves.
pub open spec fn api_not_found_text() -> Seq<char> {
    "api not found"@
}

/// The home page: 200 and a greeting.
pub fn home() -> (r: HttpReply)
    ensures
        r.status == STATUS_OK,
        r.kind == BodyKind::Text,
        r.body@ == home_text(),
{
    HttpReply { status: STATUS_OK, kind: BodyKind::Text, body: String::from_str("hello,bff") }
}

/// The envelope that answers a path no route serves: code 404,
/// message `api not found`, and the empty object as data.
pub fn api_not_found_reply() -> (r: Reply<EmptyObject>)
    ensures
        r.code == 404,
        r.message@ == api_not_found_text(),
        r.data is Some,
{
    Reply { code: 404, message: String::from_str("api not found"), data: Some(EmptyObject {}) }
}

/// The answer to a path inside the API that no route serves: 404, and a
/// JSON envelope whose code is that same status.
pub fn api_not_found() -> (r: HttpReply)
    ensures
        r.status == STATUS_NOT_FOUND,
        r.kind == BodyKind::Json,
        r.body@ == spec_reply_json(404, api_not_found_text(), true),
        r.body@ == spec_reply_json(r.status as i32, api_not_found_text(), true),
{
    let reply = api_not_found_reply();
    HttpReply { status: STATUS_NOT_FOUND, kind: BodyKind::Json, body: reply.to_json() }
}

/// The answer to a path outside the API that no route serves: the same
/// 404 and JSON envelope as inside it, since every unmatched route is
/// answered alike.
pub fn not_found_handler() -> (r: HttpReply)
    ensures
        r.status == STATUS_NOT_FOUND,
        r.kind == BodyKind::Json,
        r.body@ == spec_reply_json(404, api_not_found_text(), true),
{
    api_not_found()
}

} // verus!
