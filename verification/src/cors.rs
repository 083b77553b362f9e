//! The cross-origin policy: any origin may call the service, with `GET` and
//! `POST`, and may send the `Content-Type` header.
//!
//! The policy has no state and refuses nothing. It only decides which headers
//! go on a response, so that a browser lets the page that asked read it, and
//! it puts the same allowances on every response.

use crate::http::Method;
use vstd::prelude::*;

verus! {

/// The one request header a cross-origin caller may set, in the lower case in
/// which header names are compared.
pub const CONTENT_TYPE: &'static str = "content-type";

/// The value of `Access-Control-Allow-Origin`.
#[derive(Debug, PartialEq, Eq)]
pub enum AllowOrigin {
    /// Every origin, written `*`.
    Any,
    /// The one origin named.
    Only(String),
}

/// What an [`AllowOrigin`] holds, as mathematical values.
pub enum AllowOriginView {
    Any,
    Only(Seq<char>),
}

impl View for AllowOrigin {
    type V = AllowOriginView;

    open spec fn view(&self) -> AllowOriginView {
        match self {
            AllowOrigin::Any => AllowOriginView::Any,
            AllowOrigin::Only(origin) => AllowOriginView::Only(origin@),
        }
    }
}

/// The cross-origin headers of one response.
#[derive(Debug, PartialEq, Eq)]
pub struct CorsHeaders {
    /// `Access-Control-Allow-Origin`
    pub allow_origin: AllowOrigin,
    /// `Access-Control-Allow-Methods`
    pub allow_methods: Vec<Method>,
    /// `Access-Control-Allow-Headers`
    pub allow_headers: Vec<String>,
}

/// What [`CorsHeaders`] hold, as mathematical values.
pub struct CorsHeadersView {
    pub allow_origin: AllowOriginView,
    pub allow_methods: Seq<Method>,
    pub allow_headers: Seq<Seq<char>>,
}

impl CorsHeadersView {
    /// A browser that reads these headers lets a page from `origin` through.
    pub open spec fn permits_origin(self, origin: Seq<char>) -> bool {
        match self.allow_origin {
            AllowOriginView::Any => true,
            AllowOriginView::Only(allowed) => allowed == origin,
        }
    }

    /// A browser that reads these headers lets a request with `method` through.
    pub open spec fn permits_method(self, method: Method) -> bool {
        self.allow_methods.contains(method)
    }

    /// A browser that reads these headers lets a request set the header `name`.
    pub open spec fn permits_header(self, name: Seq<char>) -> bool {
        self.allow_headers.contains(name)
    }
}

impl View for CorsHeaders {
    type V = CorsHeadersView;

    open spec fn view(&self) -> CorsHeadersView {
        CorsHeadersView {
            allow_origin: self.allow_origin@,
            allow_methods: self.allow_methods@,
            allow_headers: self.allow_headers@.map_values(|name: String| name@),
        }
    }
}

/// The methods a cross-origin caller may use.
pub open spec fn allowed_methods() -> Seq<Method> {
    seq![Method::Get, Method::Post]
}

/// The request headers a cross-origin caller may set.
pub open spec fn allowed_headers() -> Seq<Seq<char>> {
    seq![CONTENT_TYPE@]
}

/// What the policy grants a request: its own origin where it names one and
/// every origin where it names none, with every method and header the policy
/// allows.
pub open spec fn grant(origin: Option<Seq<char>>) -> CorsHeadersView {
    CorsHeadersView {
        allow_origin: match origin {
            Some(origin) => AllowOriginView::Only(origin),
            None => AllowOriginView::Any,
        },
        allow_methods: allowed_methods(),
        allow_headers: allowed_headers(),
    }
}

/// The headers that go on the response to a request whose `Origin` header is
/// `origin`.
pub fn cors_headers(origin: Option<&str>) -> (headers: CorsHeaders)
    ensures
        headers@ == grant(
            match origin {
                Some(origin) => Some(origin@),
                None => None,
            },
        ),
{
    let allow_origin = match origin {
        Some(origin) => AllowOrigin::Only(origin.to_owned()),
        None => AllowOrigin::Any,
    };
    let mut allow_methods: Vec<Method> = Vec::new();
    allow_methods.push(Method::Get);
    allow_methods.push(Method::Post);
    let mut allow_headers: Vec<String> = Vec::new();
    allow_headers.push(CONTENT_TYPE.to_owned());
    let headers = CorsHeaders { allow_origin, allow_methods, allow_headers };
    assert(headers@.allow_methods =~= allowed_methods());
    assert(headers@.allow_headers =~= allowed_headers());
    headers
}

} // verus!
