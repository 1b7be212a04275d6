//! The requests the library asks a transport to send to a BMC.

use vstd::prelude::*;

use crate::json::{JsonValue, JsonView};
use crate::text;

verus! {

/// The path under which a BMC serves the Redfish API.
pub const REDFISH_ENDPOINT: &'static str = "redfish/v1";

/// Where and how to reach a BMC.
#[derive(Debug, Clone)]
pub struct NetworkConfig {
    pub endpoint: String,
    pub port: Option<u16>,
    pub user: Option<String>,
    pub password: Option<String>,
}

/// An HTTP method.
#[derive(Clone, Copy, Debug, PartialEq, Eq, Structural)]
pub enum Method {
    Get,
    Post,
    Patch,
    Delete,
}

/// One HTTP call: its method, its path below the Redfish endpoint, the JSON
/// body it carries and, where the default does not do, its timeout in seconds.
#[derive(Debug)]
pub struct Request {
    pub method: Method,
    pub path: String,
    pub body: Option<JsonValue>,
    pub timeout_secs: Option<u64>,
}

/// The model of a request.
pub struct RequestView {
    pub method: Method,
    pub path: Seq<char>,
    pub body: Option<JsonView>,
    pub timeout_secs: Option<u64>,
}

impl View for Request {
    type V = RequestView;

    open spec fn view(&self) -> RequestView {
        RequestView {
            method: self.method,
            path: self.path@,
            body: match self.body {
                Some(b) => Some(b@),
                None => None,
            },
            timeout_secs: self.timeout_secs,
        }
    }
}

/// A GET of `path`.
pub open spec fn get_of(path: Seq<char>) -> RequestView {
    RequestView { method: Method::Get, path, body: None, timeout_secs: None }
}

/// A POST of `body` to `path`.
pub open spec fn post_of(path: Seq<char>, body: JsonView) -> RequestView {
    RequestView { method: Method::Post, path, body: Some(body), timeout_secs: None }
}

/// A PATCH of `body` to `path`.
pub open spec fn patch_of(path: Seq<char>, body: JsonView) -> RequestView {
    RequestView { method: Method::Patch, path, body: Some(body), timeout_secs: None }
}

/// The models of a list of requests.
pub open spec fn views(rs: Seq<Request>) -> Seq<RequestView> {
    rs.map_values(|r: Request| r@)
}

impl Request {
    /// A GET of `path`.
    pub fn get(path: String) -> (r: Request)
        ensures
            r@ == get_of(path@),
    {
        Request { method: Method::Get, path, body: None, timeout_secs: None }
    }

    /// A POST of `body` to `path`.
    pub fn post(path: String, body: JsonValue) -> (r: Request)
        ensures
            r@ == post_of(path@, body@),
    {
        Request { method: Method::Post, path, body: Some(body), timeout_secs: None }
    }

    /// A PATCH of `body` to `path`.
    pub fn patch(path: String, body: JsonValue) -> (r: Request)
        ensures
            r@ == patch_of(path@, body@),
    {
        Request { method: Method::Patch, path, body: Some(body), timeout_secs: None }
    }
}

/// The path below the Redfish endpoint that an `@odata.id` names: every
/// `/redfish/v1/` in it removed.
pub open spec fn odata_path_of(odata_id: Seq<char>) -> Seq<char> {
    text::replace_all(odata_id, "/"@ + REDFISH_ENDPOINT@ + "/"@, Seq::empty())
}

/// The path below the Redfish endpoint that an `@odata.id` names.
pub fn odata_path(odata_id: &str) -> (r: String)
    ensures
        r@ == odata_path_of(odata_id@),
{
    let prefix = text::concat("/", REDFISH_ENDPOINT);
    let pat = text::concat(prefix.as_str(), "/");
    proof {
        reveal_strlit("/");
        reveal_strlit("");
    }
    assert(pat@ == "/"@ + REDFISH_ENDPOINT@ + "/"@);
    let r = text::replace(odata_id, pat.as_str(), "");
    assert(""@ == Seq::<char>::empty());
    r
}

} // verus!
