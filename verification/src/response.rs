//! A plain textual HTTP response body together with its media type, and the
//! static greeting served at the root path.

use vstd::prelude::*;
use vstd::string::StringExecFns;

verus! {

/// A response body with the media type it is served under.
#[derive(Debug)]
pub struct TextResponse {
    pub media_type: String,
    pub body: String,
}

/// The static greeting at the root path, served as HTML.
pub fn index() -> (r: TextResponse)
    ensures
        r.media_type@ == "text/html"@,
        r.body@ == "twitton :)"@,
{
    TextResponse { media_type: String::from_str("text/html"), body: String::from_str("twitton :)") }
}

} // verus!
