//! Turning a GUI call (method, endpoint, optional JSON payload) into the one
//! HTTP request that is sent to the local backend.
use vstd::prelude::*;

verus! {

/// Declares `serde_json::Value` so that a payload can be carried through
/// unchanged; nothing is assumed of what it holds.
#[verifier::external_type_specification]
#[verifier::external_body]
pub struct ExJsonValue(serde_json::Value);

/// Base address of the backend; endpoints are appended verbatim.
pub const BACKEND_BASE_URL: &'static str = "http://127.0.0.1:8000/";

/// The HTTP verbs that are forwarded.
#[derive(Clone, Copy, Debug, PartialEq, Eq, Structural)]
pub enum HttpMethod {
    Get,
    Post,
    Put,
    Delete,
}

/// The verb that a method name stands for; names are matched exactly, in
/// upper case.
pub open spec fn method_from_name(name: Seq<char>) -> Option<HttpMethod> {
    if name == "GET"@ {
        Some(HttpMethod::Get)
    } else if name == "POST"@ {
        Some(HttpMethod::Post)
    } else if name == "PUT"@ {
        Some(HttpMethod::Put)
    } else if name == "DELETE"@ {
        Some(HttpMethod::Delete)
    } else {
        None
    }
}

/// A verb's name as it stands on the wire.
pub open spec fn method_name(m: HttpMethod) -> Seq<char> {
    match m {
        HttpMethod::Get => "GET"@,
        HttpMethod::Post => "POST"@,
        HttpMethod::Put => "PUT"@,
        HttpMethod::Delete => "DELETE"@,
    }
}

/// Reading a verb's own name gives the verb back: each of the four verbs is
/// forwarded under its name.
pub proof fn lemma_method_name_round_trip(m: HttpMethod)
    ensures
        method_from_name(method_name(m)) == Some(m),
{
    reveal_strlit("GET");
    reveal_strlit("POST");
    reveal_strlit("PUT");
    reveal_strlit("DELETE");
    // the four names differ in length or in their first character
    assert("GET"@.len() == 3);
    assert("POST"@.len() == 4);
    assert("PUT"@[0] != "GET"@[0]);
    assert("DELETE"@.len() == 6);
}

/// The text of the error for a method name that is not forwarded.
pub open spec fn unsupported_method_message(name: Seq<char>) -> Seq<char> {
    "Unsupported HTTP method: "@ + name
}

/// The URL that a call on `endpoint` is sent to.
pub open spec fn backend_url_spec(endpoint: Seq<char>) -> Seq<char> {
    BACKEND_BASE_URL@ + endpoint
}

/// Relies on `<str as PartialEq>::eq`: true exactly when the two strings hold
/// the same characters.
#[verifier::external_body]
fn str_equal(a: &str, b: &str) -> (r: bool)
    ensures
        r == (a@ == b@),
{
    a == b
}

impl HttpMethod {
    /// The verb named by `name`, or the error text naming it when it is not
    /// one of GET, POST, PUT and DELETE.
    pub fn parse(name: &str) -> (r: Result<HttpMethod, String>)
        ensures
            match r {
                Ok(m) => method_from_name(name@) == Some(m),
                Err(e) => method_from_name(name@) is None && e@ == unsupported_method_message(
                    name@,
                ),
            },
    {
        if str_equal(name, "GET") {
            Ok(HttpMethod::Get)
        } else if str_equal(name, "POST") {
            Ok(HttpMethod::Post)
        } else if str_equal(name, "PUT") {
            Ok(HttpMethod::Put)
        } else if str_equal(name, "DELETE") {
            Ok(HttpMethod::Delete)
        } else {
            let mut e = String::from_str("Unsupported HTTP method: ");
            e.append(name);
            Err(e)
        }
    }

    /// The verb's name as it stands on the wire.
    pub fn as_str(&self) -> (r: &'static str)
        ensures
            r@ == method_name(*self),
            method_from_name(r@) == Some(*self),
    {
        proof {
            lemma_method_name_round_trip(*self);
        }
        match self {
            HttpMethod::Get => "GET",
            HttpMethod::Post => "POST",
            HttpMethod::Put => "PUT",
            HttpMethod::Delete => "DELETE",
        }
    }
}

/// The backend URL for `endpoint`: the base address followed by the endpoint
/// as given, with no escaping.
pub fn backend_url(endpoint: &str) -> (r: String)
    ensures
        r@ == backend_url_spec(endpoint@),
{
    let mut url = String::from_str(BACKEND_BASE_URL);
    url.append(endpoint);
    url
}

/// One request to the backend, ready to be sent.
///
/// A payload, when there is one, is sent as the JSON body whatever the verb:
/// GET, PUT and DELETE carry it just as POST does.
pub struct ForwardRequest {
    pub method: HttpMethod,
    pub url: String,
    pub body: Option<serde_json::Value>,
}

/// The request that a call with `method`, `endpoint` and `payload` sends, or
/// the error text when the method is not forwarded; in that case nothing is
/// to be sent.
pub fn plan_forward(method: &str, endpoint: &str, payload: Option<serde_json::Value>) -> (r:
    Result<ForwardRequest, String>)
    ensures
        r is Ok <==> method_from_name(method@) is Some,
        r matches Ok(req) ==> {
            &&& Some(req.method) == method_from_name(method@)
            &&& req.url@ == backend_url_spec(endpoint@)
            &&& req.body == payload
        },
        r matches Err(e) ==> e@ == unsupported_method_message(method@),
{
    match HttpMethod::parse(method) {
        Ok(m) => Ok(ForwardRequest { method: m, url: backend_url(endpoint), body: payload }),
        Err(e) => Err(e),
    }
}

} // verus!
