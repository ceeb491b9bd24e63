//! What a command-line client of the gateway computes around its requests.

use crate::endpoints::verify::VerifyResponse;
use vstd::prelude::*;

verus! {

/// The text `s` without the slashes at its end.
pub open spec fn without_trailing_slashes(s: Seq<char>) -> Seq<char>
    decreases s.len(),
{
    if s.len() > 0 && s.last() == '/' {
        without_trailing_slashes(s.drop_last())
    } else {
        s
    }
}

/// Calls `str::trim_end_matches` with the pattern `'/'`, which removes every
/// slash at the end of the text and nothing else.
#[verifier::external_body]
fn trim_trailing_slashes(s: &str) -> (res: &str)
    ensures
        res@ == without_trailing_slashes(s@),
{
    s.trim_end_matches('/')
}

/// The address of a route of the gateway at `server`: the server's address
/// without trailing slashes, one slash, and the route.
pub fn endpoint_url(server: &str, route: &str) -> (res: String)
    ensures
        res@ == without_trailing_slashes(server@) + "/"@ + route@,
{
    let mut url = trim_trailing_slashes(server).to_string();
    url.append("/");
    url.append(route);
    url
}

/// The line that reports a verdict to the user: `Ok` for an accepted proof,
/// `Err` for a rejected one, which the client answers by exiting with a failure.
pub fn verification_summary(response: &VerifyResponse) -> (res: Result<String, String>)
    ensures
        match res {
            Ok(line) => response.verified && line@ == "Verification succeeded for program "@
                + response.program_id@,
            Err(line) => !response.verified && line@ == "Verification FAILED: "@
                + response.failure_reason@,
        },
{
    if response.verified {
        let mut line = "Verification succeeded for program ".to_string();
        line.append(response.program_id.0.as_str());
        Ok(line)
    } else {
        let mut line = "Verification FAILED: ".to_string();
        line.append(response.failure_reason.as_str());
        Err(line)
    }
}

} // verus!
