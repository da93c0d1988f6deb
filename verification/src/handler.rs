//! From an HTTP response to the reply text.
//!
//! Every retrieval failure — a non-success status or an unparseable body —
//! collapses into the one fixed failure message; a parsed record is rendered
//! into the seven-line summary. The transport itself lives outside the
//! library: the caller performs the request and hands the status and body in.

use vstd::prelude::*;

use crate::json::parse_github_user;
use crate::json::spec_parse_profile;
use crate::render::failed_text;
use crate::render::fetch_failed_reply;
use crate::render::render_profile;
use crate::render::render_text;

verus! {

/// Whether an HTTP status code counts as success: exactly the 2xx range.
pub open spec fn status_success(status: u16) -> bool {
    200 <= status && status < 300
}

/// Turns the response to the profile request into the reply text: for any
/// non-success status the fixed failure message, whatever the body; for a
/// success status, the rendered record when the body parses, and the same
/// fixed failure message when it does not.
pub fn handle_response(status: u16, body: &str) -> (r: String)
    ensures
        !status_success(status) ==> r@ == failed_text(),
        status_success(status) && spec_parse_profile(body@) is None ==> r@ == failed_text(),
        (status_success(status) && spec_parse_profile(body@) is Some) ==> r@ == render_text(
            spec_parse_profile(body@)->Some_0,
        ),
{
    if 200 <= status && status < 300 {
        match parse_github_user(body) {
            Some(user) => render_profile(&user),
            None => fetch_failed_reply(),
        }
    } else {
        fetch_failed_reply()
    }
}

} // verus!
