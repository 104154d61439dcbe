use vstd::prelude::*;
use vstd::string::*;
use crate::error::join;

verus! {

/// The text that a JSON document holds at a pointer: the value that
/// `serde_json` finds there when the document parses and the value is a
/// string; `None` when the document does not parse, when nothing is at the
/// pointer, and when what is there is no string.
pub uninterp spec fn json_text(body: Seq<char>, pointer: Seq<char>) -> Option<Seq<char>>;

/// The view of a text that may be absent.
pub open spec fn text_view(t: Option<String>) -> Option<Seq<char>> {
    match t {
        Some(s) => Some(s@),
        None => None,
    }
}

/// Calls `serde_json::from_str` for a `serde_json::Value`, then
/// `Value::pointer` on it. Trusted: the result is what [`json_text`] names,
/// that is the string at `pointer`, and `None` in every other case. Neither
/// call panics; the parser bounds its own recursion.
#[verifier::external_body]
pub(crate) fn json_text_at(body: &str, pointer: &str) -> (r: Option<String>)
    ensures
        text_view(r) == json_text(body@, pointer@),
{
    let value: serde_json::Value = serde_json::from_str(body).ok()?;
    match value.pointer(pointer) {
        Some(serde_json::Value::String(s)) => Some(s.clone()),
        _ => None,
    }
}

/// Whether an HTTP status code reports success: the codes from 200 to 299.
pub open spec fn success_code(status: u16) -> bool {
    200 <= status < 300
}

/// Whether an HTTP status code reports success.
pub fn is_success(status: u16) -> (r: bool)
    ensures
        r == success_code(status),
{
    200 <= status && status < 300
}

/// The value of the `Authorization` header for an API key.
pub open spec fn bearer(api_key: Seq<char>) -> Seq<char> {
    "Bearer "@ + api_key
}

/// The value of the `Authorization` header that every request carries.
pub fn authorization_header(api_key: &str) -> (r: String)
    ensures
        r@ == bearer(api_key@),
{
    join("Bearer ", api_key)
}

/// The address of the payment-links endpoint.
pub open spec fn endpoint() -> Seq<char> {
    "https://api.mollie.com/v2/payment-links"@
}

/// The address to which a payment link's creation is posted.
pub fn payment_links_endpoint() -> (r: String)
    ensures
        r@ == endpoint(),
{
    String::from_str("https://api.mollie.com/v2/payment-links")
}

} // verus!
