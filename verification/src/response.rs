//! Response construction.
//!
//! A selected entry is wrapped verbatim — no escaping, the stored text is
//! trusted — in a fixed minimal HTML skeleton: a doctype, a head declaring
//! UTF-8, and a body holding the entry text. Every response carries the
//! one configured status code and a `text/html` content type, whatever
//! the request looked like.

use vstd::prelude::*;
use vstd::string::StringExecFns;

use crate::storage::Entry;

verus! {

/// Everything the serving layer needs to write one response.
pub struct FortuneResponse {
    pub status_code: u16,
    pub content_type: String,
    pub body: String,
}

/// The document text up to the entry body.
pub open spec fn page_prefix() -> Seq<char> {
    "<!DOCTYPE html><html><head><meta charset=\"UTF-8\"></head><body>"@
}

/// The document text after the entry body.
pub open spec fn page_suffix() -> Seq<char> {
    "</body></html>"@
}

/// The full document wrapping an entry body.
pub open spec fn rendered_page(body: Seq<char>) -> Seq<char> {
    page_prefix() + body + page_suffix()
}

/// Wrap an entry body verbatim in the fixed HTML skeleton.
pub fn render_page(entry_body: &str) -> (r: String)
    ensures
        r@ == rendered_page(entry_body@),
{
    let mut r = String::from_str(
        "<!DOCTYPE html><html><head><meta charset=\"UTF-8\"></head><body>",
    );
    r.append(entry_body);
    r.append("</body></html>");
    r
}

/// Build the one response this service ever sends: the configured status
/// code, a `text/html` content type, and the entry's text wrapped in the
/// fixed HTML skeleton.
pub fn build_response(status_code: u16, entry: &Entry) -> (r: FortuneResponse)
    ensures
        r.status_code == status_code,
        r.content_type@ == "text/html"@,
        r.body@ == rendered_page(entry.body@),
{
    FortuneResponse {
        status_code,
        content_type: String::from_str("text/html"),
        body: render_page(entry.body.as_str()),
    }
}

} // verus!
