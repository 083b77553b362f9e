//! The vocabulary of the HTTP surface: methods, routes, status codes, and the
//! requests and responses that cross it.

use crate::cors::{CorsHeaders, CorsHeadersView};
use crate::geometry::{Layout, LayoutView};
use vstd::prelude::*;

verus! {

/// A request method. The service tells three apart; `Other` stands for every
/// method that is none of them.
#[derive(Clone, Copy, Debug, PartialEq, Eq, Structural)]
pub enum Method {
    Get,
    Post,
    Options,
    Other,
}

/// The method that `token` names. Method names are case-sensitive.
pub open spec fn method_of(token: Seq<char>) -> Method {
    if token == "GET"@ {
        Method::Get
    } else if token == "POST"@ {
        Method::Post
    } else if token == "OPTIONS"@ {
        Method::Options
    } else {
        Method::Other
    }
}

impl Method {
    /// The name of this method on the wire. `Other` has none.
    pub open spec fn token_of(self) -> Option<Seq<char>> {
        match self {
            Method::Get => Some("GET"@),
            Method::Post => Some("POST"@),
            Method::Options => Some("OPTIONS"@),
            Method::Other => None,
        }
    }

    /// The method that `token` names.
    pub fn from_token(token: &str) -> (method: Method)
        ensures
            method == method_of(token@),
    {
        let given: String = token.to_owned();
        if given == "GET".to_owned() {
            Method::Get
        } else if given == "POST".to_owned() {
            Method::Post
        } else if given == "OPTIONS".to_owned() {
            Method::Options
        } else {
            Method::Other
        }
    }

    /// The name of this method on the wire. Reading the name back with
    /// [`Method::from_token`] gives this method again.
    pub fn token(self) -> (token: Option<&'static str>)
        ensures
            match token {
                Some(name) => self.token_of() == Some(name@) && method_of(name@) == self,
                None => self.token_of() is None,
            },
    {
        proof {
            reveal_strlit("GET");
            reveal_strlit("POST");
            reveal_strlit("OPTIONS");
        }
        match self {
            Method::Get => Some("GET"),
            Method::Post => {
                assert("POST"@.len() != "GET"@.len());
                Some("POST")
            },
            Method::Options => {
                assert("OPTIONS"@.len() != "GET"@.len());
                assert("OPTIONS"@.len() != "POST"@.len());
                Some("OPTIONS")
            },
            Method::Other => None,
        }
    }
}

/// The status of a response.
#[derive(Clone, Copy, Debug, PartialEq, Eq, Structural)]
pub enum Status {
    Success,
    BadRequest,
    NotFound,
}

impl Status {
    /// The three-digit code that goes on the wire.
    pub open spec fn code_of(self) -> u16 {
        match self {
            Status::Success => 200,
            Status::BadRequest => 400,
            Status::NotFound => 404,
        }
    }

    /// The three-digit code that goes on the wire.
    pub fn code(self) -> (code: u16)
        ensures
            code == self.code_of(),
    {
        match self {
            Status::Success => 200,
            Status::BadRequest => 400,
            Status::NotFound => 404,
        }
    }
}

/// Where a request is sent.
#[derive(Clone, Copy, Debug, PartialEq, Eq, Structural)]
pub enum Route {
    SaveLayout,
    LoadLayout,
    Unmatched,
}

/// The path under which a layout is saved.
pub const SAVE_LAYOUT_PATH: &'static str = "/save_layout";

/// The path under which the latest layout is loaded.
pub const LOAD_LAYOUT_PATH: &'static str = "/load_layout";

/// The route table: `POST /save_layout` saves, `GET /load_layout` loads, and
/// nothing else is routed. A path matches only if it is equal to the route's
/// path, character for character.
pub open spec fn route_of(method: Method, path: Seq<char>) -> Route {
    if method == Method::Post && path == SAVE_LAYOUT_PATH@ {
        Route::SaveLayout
    } else if method == Method::Get && path == LOAD_LAYOUT_PATH@ {
        Route::LoadLayout
    } else {
        Route::Unmatched
    }
}

/// Looks `method` and `path` up in the route table.
pub fn route(method: Method, path: &str) -> (found: Route)
    ensures
        found == route_of(method, path@),
{
    let given: String = path.to_owned();
    if method == Method::Post && given == SAVE_LAYOUT_PATH.to_owned() {
        Route::SaveLayout
    } else if method == Method::Get && given == LOAD_LAYOUT_PATH.to_owned() {
        Route::LoadLayout
    } else {
        Route::Unmatched
    }
}

/// Why a request body is not a layout.
#[derive(Clone, Copy, Debug, PartialEq, Eq, Structural)]
pub enum DecodeError {
    /// The body is not a JSON document.
    InvalidJson,
    /// The body is JSON, but a field is missing or has the wrong shape.
    ShapeMismatch,
}

/// A request, as far as the service looks at it.
#[derive(Debug, PartialEq, Eq)]
pub struct Request {
    pub method: Method,
    /// The path of the request target, without any query.
    pub path: String,
    /// The value of the `Origin` header, where the request carries one.
    pub origin: Option<String>,
    /// What decoding the body as a layout gave. Only a save reads it.
    pub body: Result<Layout, DecodeError>,
}

/// What a [`Request`] holds, as mathematical values.
pub struct RequestView {
    pub method: Method,
    pub path: Seq<char>,
    pub origin: Option<Seq<char>>,
    pub body: Result<LayoutView, DecodeError>,
}

impl View for Request {
    type V = RequestView;

    open spec fn view(&self) -> RequestView {
        RequestView {
            method: self.method,
            path: self.path@,
            origin: match self.origin {
                Some(origin) => Some(origin@),
                None => None,
            },
            body: match self.body {
                Ok(layout) => Ok(layout@),
                Err(error) => Err(error),
            },
        }
    }
}

/// What a response carries after its headers.
#[derive(Debug, PartialEq, Eq)]
pub enum Body {
    /// Nothing.
    Empty,
    /// A text, sent as a JSON string.
    Message(String),
    /// A layout, sent as a JSON object.
    Layout(Layout),
}

/// What a [`Body`] holds, as mathematical values.
pub enum BodyView {
    Empty,
    Message(Seq<char>),
    Layout(LayoutView),
}

impl View for Body {
    type V = BodyView;

    open spec fn view(&self) -> BodyView {
        match self {
            Body::Empty => BodyView::Empty,
            Body::Message(text) => BodyView::Message(text@),
            Body::Layout(layout) => BodyView::Layout(layout@),
        }
    }
}

/// A response, ready to be written out.
#[derive(Debug, PartialEq, Eq)]
pub struct Response {
    pub status: Status,
    pub body: Body,
    /// The cross-origin headers to send along.
    pub cors: CorsHeaders,
}

/// What a [`Response`] holds, as mathematical values.
pub struct ResponseView {
    pub status: Status,
    pub body: BodyView,
    pub cors: CorsHeadersView,
}

impl View for Response {
    type V = ResponseView;

    open spec fn view(&self) -> ResponseView {
        ResponseView { status: self.status, body: self.body@, cors: self.cors@ }
    }
}

} // verus!
