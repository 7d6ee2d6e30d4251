use vstd::prelude::*;

use crate::dependency::Dependency;
use crate::json::{error_json, error_object, push_bytes, push_str, utf8};

verus! {

/// `200 OK`: the volume was evaluated.
pub const STATUS_OK: u16 = 200;

/// `422 Unprocessable Entity`: a dependency rejected an operand.
pub const STATUS_UNPROCESSABLE: u16 = 422;

/// `500 Internal Server Error`: a dependency answered without a numeric result.
pub const STATUS_INTERNAL_ERROR: u16 = 500;

/// `502 Bad Gateway`: what a forwarded status that is no HTTP status becomes.
pub const STATUS_BAD_GATEWAY: u16 = 502;

/// `503 Service Unavailable`: a dependency could not be used.
pub const STATUS_UNAVAILABLE: u16 = 503;

/// What this service answers its caller: an HTTP status and a JSON body.
pub struct Reply {
    pub status: u16,
    pub body: Vec<u8>,
}

impl View for Reply {
    type V = (u16, Seq<u8>);

    open spec fn view(&self) -> (u16, Seq<u8>) {
        (self.status, self.body@)
    }
}

/// The body of a successful evaluation; each field holds JSON text.
pub struct ConeVolumeResponse {
    pub radius: Vec<u8>,
    pub height: Vec<u8>,
    pub result: Vec<u8>,
}

/// `{"height":H,"radius":R,"result":X}`: the keys in the order JSON maps keep them.
pub open spec fn volume_json(radius: Seq<u8>, height: Seq<u8>, result: Seq<u8>) -> Seq<u8> {
    utf8("{\"height\":") + height + utf8(",\"radius\":") + radius + utf8(",\"result\":") + result
        + utf8("}")
}

impl ConeVolumeResponse {
    /// The JSON document of this response.
    pub fn to_json(&self) -> (body: Vec<u8>)
        ensures
            body@ == volume_json(self.radius@, self.height@, self.result@),
    {
        let mut body: Vec<u8> = Vec::new();
        push_str(&mut body, "{\"height\":");
        push_bytes(&mut body, self.height.as_slice());
        push_str(&mut body, ",\"radius\":");
        push_bytes(&mut body, self.radius.as_slice());
        push_str(&mut body, ",\"result\":");
        push_bytes(&mut body, self.result.as_slice());
        push_str(&mut body, "}");
        body
    }
}

/// The reply to a successful evaluation: the operands echoed as given, and the volume.
pub open spec fn ok_reply(radius: Seq<u8>, height: Seq<u8>, result: Seq<u8>) -> (u16, Seq<u8>) {
    (STATUS_OK, volume_json(radius, height, result))
}

/// The reply when `dependency` is unreachable or answered with an unexpected status.
pub open spec fn degraded_reply(dependency: Dependency) -> (u16, Seq<u8>) {
    (STATUS_UNAVAILABLE, error_json(dependency.name_bytes(), utf8("dependency unavailable")))
}

/// The reply when `dependency` answered `200` without a numeric `result`.
pub open spec fn malformed_reply(dependency: Dependency) -> (u16, Seq<u8>) {
    (STATUS_INTERNAL_ERROR, error_json(dependency.name_bytes(), utf8("dependency returned a malformed result")))
}

/// A dependency's answer passed on as it came, under its own status where that is an HTTP
/// status and under `502` where it is not.
pub open spec fn forward_reply(status: u16, body: Seq<u8>) -> (u16, Seq<u8>) {
    (if 100 <= status <= 999 { status } else { STATUS_BAD_GATEWAY }, body)
}

/// `200` with the operands echoed and the volume.
pub fn ok(radius: Vec<u8>, height: Vec<u8>, result: Vec<u8>) -> (reply: Reply)
    ensures
        reply@ == ok_reply(radius@, height@, result@),
{
    let response = ConeVolumeResponse { radius, height, result };
    Reply { status: STATUS_OK, body: response.to_json() }
}

} // verus!

verus! {

/// `503`: `dependency` is unavailable.
pub fn degraded(dependency: Dependency) -> (reply: Reply)
    ensures
        reply@ == degraded_reply(dependency),
{
    Reply {
        status: STATUS_UNAVAILABLE,
        body: error_object(dependency.name(), "dependency unavailable"),
    }
}

/// `500`: `dependency` answered `200` but its body lacked a numeric `result`. That is a
/// contract violation this service cannot recover from, so it is surfaced rather than guessed.
pub fn malformed(dependency: Dependency) -> (reply: Reply)
    ensures
        reply@ == malformed_reply(dependency),
{
    Reply {
        status: STATUS_INTERNAL_ERROR,
        body: error_object(dependency.name(), "dependency returned a malformed result"),
    }
}

/// A dependency's answer, passed on verbatim.
pub fn forward(status: u16, body: Vec<u8>) -> (reply: Reply)
    ensures
        reply@ == forward_reply(status, body@),
{
    let code = if is_status_code(status) {
        status
    } else {
        STATUS_BAD_GATEWAY
    };
    Reply { status: code, body }
}

/// Whether `status` is an HTTP status code: `http::StatusCode::from_u16` (re-exported by
/// axum) succeeds exactly on 100 through 999, as its documentation and source state.
#[verifier::external_body]
fn is_status_code(status: u16) -> (valid: bool)
    ensures
        valid == (100 <= status <= 999),
{
    axum::http::StatusCode::from_u16(status).is_ok()
}

} // verus!
