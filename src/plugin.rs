//! What the plugin tells its host about itself: its routes and its description.

use vstd::prelude::*;
use crate::json::{json_string_literal, quote};

verus! {

pub const VERSION: &'static str = "0.1.0";

/// An endpoint the host registers for this plugin.
pub struct PluginRoute {
    pub path: &'static str,
    pub function: &'static str,
    pub method_router: &'static str,
    pub response_type: &'static str,
}

/// The plugin's endpoints: sending mail, and its description.
pub open spec fn route_table() -> Seq<PluginRoute> {
    seq![
        PluginRoute {
            path: "/sendmail",
            function: "sendmail",
            method_router: "post",
            response_type: "json",
        },
        PluginRoute { path: "/about", function: "about", method_router: "get", response_type: "text" },
    ]
}

/// The plugin's endpoints.
pub fn plugin_routes() -> (r: Vec<PluginRoute>)
    ensures
        r@ == route_table(),
{
    vec![
        PluginRoute {
            path: "/sendmail",
            function: "sendmail",
            method_router: "post",
            response_type: "json",
        },
        PluginRoute { path: "/about", function: "about", method_router: "get", response_type: "text" },
    ]
}

/// One route as a pretty-printed JSON object inside the array.
pub open spec fn route_text(r: PluginRoute) -> Seq<char> {
    "  {\n    \"path\": "@ + json_string_literal(r.path@) + ",\n    \"function\": "@
        + json_string_literal(r.function@) + ",\n    \"method_router\": "@
        + json_string_literal(r.method_router@) + ",\n    \"response_type\": "@
        + json_string_literal(r.response_type@) + "\n  }"@
}

/// The routes' objects, separated by commas.
pub open spec fn routes_body(rs: Seq<PluginRoute>) -> Seq<char>
    decreases rs.len(),
{
    if rs.len() == 0 {
        Seq::empty()
    } else if rs.len() == 1 {
        route_text(rs[0])
    } else {
        routes_body(rs.drop_last()) + ",\n"@ + route_text(rs.last())
    }
}

/// The routes as a pretty-printed JSON array.
pub open spec fn routes_text(rs: Seq<PluginRoute>) -> Seq<char> {
    if rs.len() == 0 {
        "[]"@
    } else {
        "[\n"@ + routes_body(rs) + "\n]"@
    }
}

fn route_json(r: &PluginRoute) -> (s: String)
    ensures
        s@ == route_text(*r),
{
    String::from_str("  {\n    \"path\": ").concat(quote(r.path).as_str())
        .concat(",\n    \"function\": ").concat(quote(r.function).as_str())
        .concat(",\n    \"method_router\": ").concat(quote(r.method_router).as_str())
        .concat(",\n    \"response_type\": ").concat(quote(r.response_type).as_str())
        .concat("\n  }")
}

/// Encodes routes as a pretty-printed JSON array.
pub fn routes_to_json(rs: &Vec<PluginRoute>) -> (s: String)
    ensures
        s@ == routes_text(rs@),
{
    if rs.len() == 0 {
        return String::from_str("[]");
    }
    let mut body = String::new();
    let mut i: usize = 0;
    while i < rs.len()
        invariant
            i <= rs@.len(),
            body@ == routes_body(rs@.subrange(0, i as int)),
        decreases rs@.len() - i,
    {
        assert(rs@.subrange(0, i + 1).drop_last() =~= rs@.subrange(0, i as int));
        if i > 0 {
            body = body.concat(",\n");
        }
        body = body.concat(route_json(&rs[i]).as_str());
        i = i + 1;
    }
    assert(rs@.subrange(0, rs@.len() as int) =~= rs@);
    String::from_str("[\n").concat(body.as_str()).concat("\n]")
}

/// The plugin's endpoints as a pretty-printed JSON array.
pub fn routes() -> (s: String)
    ensures
        s@ == routes_text(route_table()),
{
    let rs = plugin_routes();
    routes_to_json(&rs)
}

/// The plugin's description.
pub open spec fn about_text() -> Seq<char> {
    "Name: arp-gmail\nVersion: "@ + VERSION@ + "\nauthors = \"Henrique Dias <mrhdias@gmail.com>\"\n"@
        + "Description: Shared library for sending mail via Gmail\nLicense: MIT"@
}

/// The plugin's name, version, author, description and license, as plain text.
pub fn about() -> (s: String)
    ensures
        s@ == about_text(),
{
    String::from_str("Name: arp-gmail\nVersion: ").concat(VERSION)
        .concat("\nauthors = \"Henrique Dias <mrhdias@gmail.com>\"\n")
        .concat("Description: Shared library for sending mail via Gmail\nLicense: MIT")
}

} // verus!
