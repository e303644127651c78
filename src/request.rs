//! The request handed to the transport, and the response it gives back.

use vstd::prelude::*;
use crate::editor::Editor;

verus! {

/// An outbound HTTP request.
pub struct Request {
    pub headers: Option<String>,
    pub body: Option<String>,
    pub uri: String,
    pub method: String,
}

/// What the transport returns for a request.
pub struct Response {
    pub json: String,
    pub status: u32,
}

/// A payload text, absent when empty.
pub open spec fn optional_text(t: Seq<char>) -> Option<Seq<char>> {
    if t.len() == 0 {
        None
    } else {
        Some(t)
    }
}

/// The method a request uses: `POST` when it carries a body, else `GET`.
pub open spec fn method_for(has_body: bool) -> Seq<char> {
    if has_body {
        "POST"@
    } else {
        "GET"@
    }
}

/// The view of an optional text.
pub open spec fn opt_view(o: Option<String>) -> Option<Seq<char>> {
    match o {
        Some(s) => Some(s@),
        None => None,
    }
}

fn non_empty(t: String) -> (r: Option<String>)
    ensures
        opt_view(r) == optional_text(t@),
{
    if t.as_str().is_empty() {
        None
    } else {
        Some(t)
    }
}

impl Request {
    /// The request made of the current text of the URI, headers and body
    /// fields.
    pub fn assemble(uri: &Editor, headers: &Editor, body: &Editor) -> (r: Request)
        ensures
            r.uri@ == uri.text_view(),
            opt_view(r.headers) == optional_text(headers.text_view()),
            opt_view(r.body) == optional_text(body.text_view()),
            r.method@ == method_for(body.text_view().len() > 0),
    {
        let u = uri.text();
        let h = non_empty(headers.text());
        let b = non_empty(body.text());
        let method = if b.is_some() {
            proof {
                reveal_strlit("POST");
            }
            "POST".to_owned()
        } else {
            proof {
                reveal_strlit("GET");
            }
            "GET".to_owned()
        };
        Request { headers: h, body: b, uri: u, method }
    }
}

} // verus!
