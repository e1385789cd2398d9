//! Small facts about HTTP exchanges shared by the remote services.

use vstd::prelude::*;

verus! {

/// A status code in the 2xx range, which `http::StatusCode::is_success`
/// reports as a success.
pub open spec fn is_success_status(code: u16) -> bool {
    200 <= code && code < 300
}

/// Whether an HTTP status code denotes success (`200..=299`), as
/// `reqwest::StatusCode::is_success` decides it.
pub fn status_is_success(code: u16) -> (ok: bool)
    ensures
        ok == is_success_status(code),
{
    200 <= code && code < 300
}

/// How `reqwest` renders an error in decoding an answer's body: this text,
/// then `: ` and the text of the decoder's error.
pub const BODY_DECODE_ERROR: &'static str = "error decoding response body";

/// The text of `reqwest`'s error for an answer body that the decoder
/// refused with the error text `cause`.
pub open spec fn decode_error_text(cause: Seq<char>) -> Seq<char> {
    BODY_DECODE_ERROR@ + ": "@ + cause
}

/// Renders `reqwest`'s error text for an answer body that the decoder
/// refused with the error text `cause`.
pub fn decode_error_message(cause: &str) -> (m: String)
    ensures
        m@ == decode_error_text(cause@),
{
    let mut m = BODY_DECODE_ERROR.to_owned();
    m.append(": ");
    m.append(cause);
    m
}

/// The success statuses are exactly 200 to 299, and a decoding error reads
/// `error decoding response body: ` followed by its cause.
pub proof fn law_success_statuses(code: u16, cause: Seq<char>)
    ensures
        is_success_status(code) <==> (200 <= code && code <= 299),
        decode_error_text(cause) == "error decoding response body: "@ + cause,
{
    assert(BODY_DECODE_ERROR@ + ": "@ + cause =~= "error decoding response body: "@ + cause) by {
        reveal_strlit("error decoding response body");
        reveal_strlit(": ");
        reveal_strlit("error decoding response body: ");
    }
}

} // verus!
