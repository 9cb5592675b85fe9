//! What every request to the server shares: the URL it goes to, its timeout,
//! and how a failure is turned into messages for the user.

use crate::entity::ErrorMessage;
use vstd::prelude::*;
use vstd::string::StringExecFns;

verus! {

/// The server every request goes to.
pub const BASE_API_URL: &'static str = "https://franz_strudel-caliaconf.builtwithdark.com";

/// How long a request may take, in milliseconds.
pub const TIMEOUT: u32 = 5000;

/// The URL of an endpoint: the server's address, a slash, and the endpoint's
/// path.
pub fn request_url(path: &str) -> (u: String)
    ensures
        u@ == BASE_API_URL@ + "/"@ + path@,
{
    let mut u = String::from_str(BASE_API_URL);
    u.append("/");
    u.append(path);
    u
}

/// Why a request failed: it never went through, its answer could not be read,
/// or the server answered with an error status.
#[derive(Clone, Copy, Debug, PartialEq, Eq, Structural)]
pub enum FailKind {
    RequestError,
    DataError,
    Status,
}

/// The messages shown for a failed request: one line, naming a request error
/// for a request that never went through and a data error for everything else.
pub fn fail_reason_into_errors(fail_kind: FailKind) -> (v: Vec<ErrorMessage>)
    ensures
        v@.len() == 1,
        fail_kind is RequestError ==> v@[0]@ == "Request error"@,
        !(fail_kind is RequestError) ==> v@[0]@ == "Data error"@,
{
    let mut v: Vec<ErrorMessage> = Vec::new();
    match fail_kind {
        FailKind::RequestError => {
            v.push(String::from_str("Request error"));
        },
        FailKind::DataError | FailKind::Status => {
            v.push(String::from_str("Data error"));
        },
    }
    v
}

} // verus!
