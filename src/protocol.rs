use vstd::prelude::*;
use crate::escape::{escaped, html_escape};
use crate::render::Highlighter;

verus! {

/// One request of the line protocol: a language token and the code to render.
pub struct HighlightRequest {
    pub language: String,
    pub code: String,
}

/// The HTML answered to a line that is not a well-formed request: the
/// parser's message, escaped, in a preformatted block.
pub open spec fn parse_error_block(message: Seq<char>) -> Seq<char> {
    "<pre><code>Error parsing request: "@ + escaped(message) + "</code></pre>"@
}

/// Writes the answer to a malformed request from the parser's message.
pub fn parse_error_html(message: &str) -> (r: String)
    ensures
        r@ == parse_error_block(message@),
{
    let mut out = String::from_str("<pre><code>Error parsing request: ");
    let body = html_escape(message);
    out.append(body.as_str());
    out.append("</code></pre>");
    out
}

impl Highlighter {
    /// The HTML answered to one input line, given what parsing the line gave
    /// (the request, or the parser's message). An empty line gets no answer.
    pub fn respond(&self, line: &str, parsed: Result<HighlightRequest, String>) -> (r: Option<
        String,
    >)
        ensures
            r is None <==> line@.len() == 0,
            line@.len() > 0 ==> match parsed {
                Ok(req) => r->0@ == self.highlighted(req.language@, req.code@),
                Err(message) => r->0@ == parse_error_block(message@),
            },
    {
        if line.is_empty() {
            return None;
        }
        match parsed {
            Ok(req) => Some(self.highlight(req.language.as_str(), req.code.as_str())),
            Err(message) => Some(parse_error_html(message.as_str())),
        }
    }
}

} // verus!
