//! Posting messages to guild channels through Discord's HTTP API.

use vstd::prelude::*;
use vstd::string::*;

use crate::error::Error;

verus! {

/// What a post to a channel comes to, given the HTTP status code of
/// Discord's answer and the status as text (such as `404 Not Found`): any
/// 2xx status is a success, anything else an upstream error that names the
/// status.
pub fn guild_message_result(status: u16, status_text: &str) -> (res: Result<(), Error>)
    ensures
        200 <= status <= 299 ==> res is Ok,
        !(200 <= status <= 299) ==> (res matches Err(Error::UpstreamError(m)) && m@ == "Discord error: "@ + status_text@),
{
    if 200 <= status && status <= 299 {
        Ok(())
    } else {
        let mut m = "Discord error: ".to_owned();
        m.append(status_text);
        Err(Error::UpstreamError(m))
    }
}

} // verus!
