//! The APOD queue: each message names a guild channel that gets the picture
//! of the day.

use vstd::prelude::*;
use vstd::string::*;

verus! {

/// A message of the APOD queue: where to post the picture.
pub struct ApodQueueMessage {
    pub channel_id: String,
    pub guild_id: String,
}

impl ApodQueueMessage {
    pub fn new(guild_id: String, channel_id: String) -> (res: Self)
        ensures
            res.guild_id@ == guild_id@,
            res.channel_id@ == channel_id@,
    {
        ApodQueueMessage { channel_id, guild_id }
    }
}

/// The consumer of the APOD queue.
pub struct ApodQueue {}

impl ApodQueue {
    pub fn new() -> (res: Self) {
        ApodQueue {}
    }

    /// The name the queue is bound under.
    pub fn name(&self) -> (res: &'static str)
        ensures
            res@ == "ggsbotrs-apod-queue"@,
    {
        "ggsbotrs-apod-queue"
    }
}

/// What the queue consumer does with a message.
#[derive(Clone, Copy, Debug, PartialEq, Eq, Structural)]
pub enum MessageDisposition {
    Ack,
    Retry,
}

/// A message that does not parse is acknowledged (it would never parse);
/// a parsed message is acknowledged once its post was sent, and retried
/// otherwise.
pub fn message_disposition(parsed: bool, sent: bool) -> (res: MessageDisposition)
    ensures
        res == if !parsed || sent { MessageDisposition::Ack } else { MessageDisposition::Retry },
{
    if !parsed {
        MessageDisposition::Ack
    } else if sent {
        MessageDisposition::Ack
    } else {
        MessageDisposition::Retry
    }
}

/// How many times the queue consumer asks NASA before giving up.
pub const APOD_FETCH_ATTEMPTS: u32 = 3;

} // verus!
