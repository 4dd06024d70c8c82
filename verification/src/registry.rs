//! The route registry: the table of the entry points that the host may bind,
//! and its listing.
//!
//! The table is fixed. The host binds the routes in the order of the table, so
//! the listing keeps that order, and no path stands in the table twice.

use vstd::prelude::*;
use vstd::string::*;
use vstd::utf8::*;

use crate::codec::{json_array_pretty, write_rows_pretty};
use crate::response::{nul_free, OwnedResponse};

verus! {

/// The method that a route answers.
#[derive(Clone, Copy, Debug, PartialEq, Eq, Structural)]
pub enum Method {
    Get,
    Post,
}

/// What a route returns, for the host to set the content type by.
#[derive(Clone, Copy, Debug, PartialEq, Eq, Structural)]
pub enum ResponseKind {
    Html,
    Json,
    Text,
}

impl Method {
    /// The name of the method in the listing.
    pub open spec fn name(self) -> Seq<char> {
        match self {
            Method::Get => "get"@,
            Method::Post => "post"@,
        }
    }

    /// The name of the method in the listing.
    pub fn as_str(&self) -> (name: &'static str)
        ensures
            name@ == self.name(),
    {
        match self {
            Method::Get => "get",
            Method::Post => "post",
        }
    }
}

impl ResponseKind {
    /// The name of the kind in the listing.
    pub open spec fn name(self) -> Seq<char> {
        match self {
            ResponseKind::Html => "html"@,
            ResponseKind::Json => "json"@,
            ResponseKind::Text => "text"@,
        }
    }

    /// The name of the kind in the listing.
    pub fn as_str(&self) -> (name: &'static str)
        ensures
            name@ == self.name(),
    {
        match self {
            ResponseKind::Html => "html",
            ResponseKind::Json => "json",
            ResponseKind::Text => "text",
        }
    }
}

/// One entry point: where the host mounts it, the function that serves it,
/// the method it answers and the kind of response it gives.
#[derive(Clone, Copy, Debug, PartialEq, Eq)]
pub struct RouteDescriptor {
    pub path: &'static str,
    pub function: &'static str,
    pub method: Method,
    pub response: ResponseKind,
}

/// A route descriptor, with its texts as sequences of characters.
pub struct Route {
    pub path: Seq<char>,
    pub function: Seq<char>,
    pub method: Method,
    pub response: ResponseKind,
}

impl View for RouteDescriptor {
    type V = Route;

    open spec fn view(&self) -> Route {
        Route {
            path: self.path@,
            function: self.function@,
            method: self.method,
            response: self.response,
        }
    }
}

/// The routes of a table, in its order.
pub open spec fn routes_of(table: Seq<RouteDescriptor>) -> Seq<Route> {
    Seq::new(table.len(), |i: int| table[i]@)
}

/// The routes that this module serves, in the order in which the host binds
/// them.
pub open spec fn declared_routes() -> Seq<Route> {
    seq![
        Route {
            path: "/test-get"@,
            function: "test_get"@,
            method: Method::Get,
            response: ResponseKind::Html,
        },
        Route {
            path: "/test-post"@,
            function: "test_post"@,
            method: Method::Post,
            response: ResponseKind::Html,
        },
        Route {
            path: "/test-json"@,
            function: "test_json"@,
            method: Method::Post,
            response: ResponseKind::Json,
        },
        Route {
            path: "/about"@,
            function: "about"@,
            method: Method::Get,
            response: ResponseKind::Text,
        },
    ]
}

/// True when no two of the routes have the same path.
pub open spec fn paths_unique(routes: Seq<Route>) -> bool {
    forall|i: int, j: int|
        0 <= i < j < routes.len() ==> (#[trigger] routes[i]).path != (#[trigger] routes[j]).path
}

/// No path stands twice in the table of this module.
pub proof fn lemma_declared_paths_unique()
    ensures
        paths_unique(declared_routes()),
{
    reveal_strlit("/test-get");
    reveal_strlit("/test-post");
    reveal_strlit("/test-json");
    reveal_strlit("/about");
    let routes = declared_routes();
    assert(routes[0].path.len() == 9);
    assert(routes[1].path.len() == 10);
    assert(routes[2].path.len() == 10);
    assert(routes[3].path.len() == 6);
    assert(routes[1].path[6] == 'p');
    assert(routes[2].path[6] == 'j');
}

/// The table of this module.
pub fn route_table() -> (table: Vec<RouteDescriptor>)
    ensures
        routes_of(table@) == declared_routes(),
{
    let mut table: Vec<RouteDescriptor> = Vec::new();
    table.push(
        RouteDescriptor {
            path: "/test-get",
            function: "test_get",
            method: Method::Get,
            response: ResponseKind::Html,
        },
    );
    table.push(
        RouteDescriptor {
            path: "/test-post",
            function: "test_post",
            method: Method::Post,
            response: ResponseKind::Html,
        },
    );
    table.push(
        RouteDescriptor {
            path: "/test-json",
            function: "test_json",
            method: Method::Post,
            response: ResponseKind::Json,
        },
    );
    table.push(
        RouteDescriptor {
            path: "/about",
            function: "about",
            method: Method::Get,
            response: ResponseKind::Text,
        },
    );
    assert(routes_of(table@) == declared_routes());
    table
}

/// The members of the object that lists a route, in the order in which they
/// are written.
pub open spec fn route_members(route: Route) -> Seq<(Seq<char>, Seq<char>)> {
    seq![
        ("path"@, route.path),
        ("function"@, route.function),
        ("method_router"@, route.method.name()),
        ("response_type"@, route.response.name()),
    ]
}

/// The rows of the listing: the members of each route, in the order of the
/// table.
pub open spec fn listing_rows(routes: Seq<Route>) -> Seq<Seq<(Seq<char>, Seq<char>)>> {
    Seq::new(routes.len(), |i: int| route_members(routes[i]))
}

/// The members of the object that lists a route.
pub fn route_row(route: &RouteDescriptor) -> (row: Vec<(String, String)>)
    ensures
        row.deep_view() == route_members(route@),
{
    let mut row: Vec<(String, String)> = Vec::new();
    row.push((String::from_str("path"), String::from_str(route.path)));
    row.push((String::from_str("function"), String::from_str(route.function)));
    row.push((String::from_str("method_router"), String::from_str(route.method.as_str())));
    row.push((String::from_str("response_type"), String::from_str(route.response.as_str())));
    assert(row.deep_view() == route_members(route@));
    row
}

/// The rows of the listing of a table.
pub fn route_rows(table: &Vec<RouteDescriptor>) -> (rows: Vec<Vec<(String, String)>>)
    ensures
        rows.deep_view() == listing_rows(routes_of(table@)),
{
    let mut rows: Vec<Vec<(String, String)>> = Vec::new();
    let mut i: usize = 0;
    while i < table.len()
        invariant
            i <= table.len(),
            rows@.len() == i,
            forall|k: int|
                0 <= k < i ==> (#[trigger] rows@[k]).deep_view() == route_members(table@[k]@),
        decreases table.len() - i,
    {
        let row = route_row(&table[i]);
        rows.push(row);
        i = i + 1;
    }
    assert(rows.deep_view() == listing_rows(routes_of(table@)));
    rows
}

/// The text of the listing that stands in for one that could not be had: the
/// empty array.
pub const EMPTY_LISTING: &'static str = "[]";

/// What is handed over for a listing: the text that was written, and the
/// empty array where nothing was written or the text cannot be carried.
pub open spec fn listing_payload(written: Option<Seq<char>>) -> Seq<u8> {
    match written {
        Some(text) => if nul_free(encode_utf8(text)) {
            encode_utf8(text)
        } else {
            encode_utf8(EMPTY_LISTING@)
        },
        None => encode_utf8(EMPTY_LISTING@),
    }
}

/// Makes the response for a listing. There always is one.
pub fn listing(written: Option<String>) -> (reply: OwnedResponse)
    ensures
        reply@ == listing_payload(
            match written {
                Some(text) => Some(text@),
                None => None,
            },
        ),
{
    let carried = match written {
        Some(text) => OwnedResponse::from_text(text.as_str()),
        None => None,
    };
    match carried {
        Some(reply) => reply,
        None => {
            proof {
                reveal_strlit("[]");
            }
            OwnedResponse::from_plain(EMPTY_LISTING)
        },
    }
}

/// Lists the routes of this module: a JSON array with one object for each
/// route, in the order of the table, with the members `path`, `function`,
/// `method_router` and `response_type`.
pub fn routes() -> (reply: OwnedResponse)
    ensures
        reply@ == listing_payload(json_array_pretty(listing_rows(declared_routes()))),
{
    let table = route_table();
    let rows = route_rows(&table);
    let written = match write_rows_pretty(&rows) {
        Ok(text) => Some(text),
        Err(_) => None,
    };
    listing(written)
}

} // verus!
