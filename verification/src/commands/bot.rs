//! The `bot` command and its subcommands `update` and `version`, and the
//! `tempvc new` command.

use vstd::prelude::*;
use vstd::string::*;

use crate::discord::response::{
    EPHEMERAL, InteractionResponse, InteractionResponseData, InteractionResponseType, ResponseBuilder, empty_data,
    is_ephemeral_content_response,
};
use crate::error::Error;
use crate::text::{decimal, i64_to_decimal, signed_decimal, u64_to_decimal};

verus! {

/// The Unix time (in seconds) of a timestamp, as parsing it into
/// `chrono::DateTime<Utc>` and taking `timestamp()` gives it.
pub uninterp spec fn datetime_unix_seconds(text: Seq<char>) -> Option<i64>;

/// Parses `text` with `str::parse::<DateTime<Utc>>` and takes its Unix time.
#[verifier::external_body]
fn parse_datetime_unix(text: &str) -> (res: Option<i64>)
    ensures
        res == datetime_unix_seconds(text@),
{
    text.parse::<chrono::DateTime<chrono::Utc>>().ok().map(|dt| dt.timestamp())
}

/// The line of the build time: a relative Discord timestamp where the build
/// time parses, else the text as it is.
pub open spec fn built_at_line(timestamp: Seq<char>) -> Seq<char> {
    match datetime_unix_seconds(timestamp) {
        Some(secs) => "**⏰ Built at:** <t:"@ + signed_decimal(secs as int) + ":R>"@,
        None => "**⏰ Built at:** "@ + timestamp,
    }
}

/// The lines of the version message: the deployment id (shown only outside
/// development), the tag (where there is one) and the build time.
pub open spec fn version_lines(id: Seq<char>, tag: Seq<char>, timestamp: Seq<char>, show_id: bool) -> Seq<char> {
    let id_part = if show_id { "**🆔 ID:** `"@ + id + "`"@ + "\n"@ } else { Seq::empty() };
    let tag_part = if tag.len() > 0 { "**🏷️ Tag:** `"@ + tag + "`"@ + "\n"@ } else { Seq::empty() };
    id_part + tag_part + built_at_line(timestamp)
}

/// The lines of the version message relate as follows: showing the id
/// only puts the id line in front of the rest; without a tag there is no tag
/// line, so the message without the id is just the build time; with a tag,
/// the tag line comes right before the build time.
pub proof fn lemma_version_lines(id: Seq<char>, tag: Seq<char>, timestamp: Seq<char>)
    ensures
        version_lines(id, tag, timestamp, true) == "**🆔 ID:** `"@ + id + "`\n"@ + version_lines(id, tag, timestamp, false),
        tag.len() == 0 ==> version_lines(id, tag, timestamp, false) == built_at_line(timestamp),
        tag.len() > 0 ==> version_lines(id, tag, timestamp, false) == "**🏷️ Tag:** `"@ + tag + "`\n"@
            + built_at_line(timestamp),
{
    reveal_strlit("`");
    reveal_strlit("\n");
    reveal_strlit("`\n");
    assert("`"@ + "\n"@ =~= "`\n"@);
    let id_part = "**🆔 ID:** `"@ + id + "`"@ + "\n"@;
    let tag_part = if tag.len() > 0 { "**🏷️ Tag:** `"@ + tag + "`"@ + "\n"@ } else { Seq::<char>::empty() };
    assert(id_part =~= "**🆔 ID:** `"@ + id + "`\n"@);
    assert(tag.len() > 0 ==> tag_part =~= "**🏷️ Tag:** `"@ + tag + "`\n"@);
    assert(version_lines(id, tag, timestamp, true) =~= id_part + (tag_part + built_at_line(timestamp)));
    assert(version_lines(id, tag, timestamp, false) =~= tag_part + built_at_line(timestamp));
}

/// The `version` subcommand: shows the worker's deployment.
pub struct Version {}

impl Version {
    pub fn name(&self) -> (res: String)
        ensures
            res@ == "version"@,
    {
        "version".to_owned()
    }

    pub fn description(&self) -> (res: String)
        ensures
            res@ == "Mostra la version del bot!"@,
    {
        "Mostra la version del bot!".to_owned()
    }

    /// The ephemeral version message for the deployment `id`, `tag` and build
    /// `timestamp`; the id is shown unless the bot runs in development.
    pub fn respond(&self, id: &str, tag: &str, timestamp: &str, is_dev: bool) -> (res: InteractionResponse)
        ensures
            is_ephemeral_content_response(
                res,
                InteractionResponseType::ChannelMessageWithSource,
                version_lines(id@, tag@, timestamp@, !is_dev),
            ),
    {
        let mut message = String::new();
        if !is_dev {
            message.append("**🆔 ID:** `");
            message.append(id);
            message.append("`");
            message.append("\n");
        }
        if tag.unicode_len() > 0 {
            message.append("**🏷️ Tag:** `");
            message.append(tag);
            message.append("`");
            message.append("\n");
        }
        match parse_datetime_unix(timestamp) {
            Some(secs) => {
                message.append("**⏰ Built at:** <t:");
                message.append(i64_to_decimal(secs).as_str());
                message.append(":R>");
            },
            None => {
                message.append("**⏰ Built at:** ");
                message.append(timestamp);
            },
        }
        proof {
            assert(message@ =~= version_lines(id@, tag@, timestamp@, !is_dev));
        }
        let mut data = InteractionResponseData::empty();
        data.content = Some(message);
        data.flags = Some(EPHEMERAL);
        InteractionResponse { kind: InteractionResponseType::ChannelMessageWithSource, data: Some(data) }
    }
}

/// What the `update` command does next.
pub enum UpdateStep {
    /// Register the commands with Discord, then `finish` with its answer.
    Register,
    /// Answer the interaction with this, without asking Discord anything.
    Answer(Result<InteractionResponse, Error>),
}

/// The `update` subcommand: registers the commands again (developer only).
pub struct Update {}

/// Whether an HTTP status is an error (4xx or 5xx), as `error_for_status` sees it.
pub open spec fn is_error_status(status: u16) -> bool {
    400 <= status <= 599
}

impl Update {
    pub fn name(&self) -> (res: String)
        ensures
            res@ == "update"@,
    {
        "update".to_owned()
    }

    pub fn description(&self) -> (res: String)
        ensures
            res@ == "Aggiorna i comandi del bot!"@,
    {
        "Aggiorna i comandi del bot!".to_owned()
    }

    /// The `ADMINISTRATOR` permission bit, which the command requires.
    pub fn default_member_permissions(&self) -> (res: Option<u64>)
        ensures
            res == Some(8u64),
    {
        Some(8)
    }

    /// The first step of the command: the commands are registered again
    /// for the developer only; anyone else gets an error, and no request
    /// reaches Discord.
    pub fn begin(&self, is_dev: bool) -> (res: UpdateStep)
        ensures
            is_dev ==> res is Register,
            !is_dev ==> (res matches UpdateStep::Answer(Err(Error::InteractionFailed(m)))
                && m@ == "Command reserved to the developer"@),
    {
        if is_dev {
            UpdateStep::Register
        } else {
            UpdateStep::Answer(Err(Error::InteractionFailed("Command reserved to the developer".to_owned())))
        }
    }

    /// The answer once Discord answered the registration with `status`:
    /// for an error status, the HTTP error (whose message is
    /// `error_message`); else the ephemeral confirmation that names the
    /// status.
    pub fn finish(&self, status: u16, error_message: String) -> (res: Result<InteractionResponse, Error>)
        ensures
            is_error_status(status) ==> (res matches Err(Error::ReqwestError(m)) && m@ == error_message@),
            !is_error_status(status) ==> (res matches Ok(r) && is_ephemeral_content_response(
                r,
                InteractionResponseType::ChannelMessageWithSource,
                "✅ Aggiornamento comandi completato! Status: **"@ + decimal(status as nat) + "**"@,
            )),
    {
        if self.status_failed(status) {
            Err(Error::ReqwestError(error_message))
        } else {
            Ok(self.respond(status))
        }
    }

    /// Whether the registration request failed with `status`.
    pub fn status_failed(&self, status: u16) -> (res: bool)
        ensures
            res == is_error_status(status),
    {
        400 <= status && status <= 599
    }

    /// The ephemeral answer once the commands were registered with `status`.
    pub fn respond(&self, status: u16) -> (res: InteractionResponse)
        ensures
            is_ephemeral_content_response(
                res,
                InteractionResponseType::ChannelMessageWithSource,
                "✅ Aggiornamento comandi completato! Status: **"@ + decimal(status as nat) + "**"@,
            ),
    {
        let mut content = "✅ Aggiornamento comandi completato! Status: **".to_owned();
        content.append(u64_to_decimal(status as u64).as_str());
        content.append("**");
        ResponseBuilder::new(InteractionResponseType::ChannelMessageWithSource).content(content).ephemeral().build()
    }
}

/// The `bot` command, which groups `update` and `version`.
pub struct Bot {}

impl Bot {
    pub fn name(&self) -> (res: String)
        ensures
            res@ == "bot"@,
    {
        "bot".to_owned()
    }

    pub fn description(&self) -> (res: String)
        ensures
            res@ == "Set di comandi relativi al bot!"@,
    {
        "Set di comandi relativi al bot!".to_owned()
    }

    /// The names of the subcommands.
    pub fn subcommands(&self) -> (res: Vec<String>)
        ensures
            res@.len() == 2,
            res@[0]@ == "update"@,
            res@[1]@ == "version"@,
    {
        let mut v = Vec::new();
        v.push("update".to_owned());
        v.push("version".to_owned());
        v
    }
}

/// The `new` subcommand of `tempvc`.
pub struct New {}

impl New {
    pub fn name(&self) -> (res: String)
        ensures
            res@ == "new"@,
    {
        "new".to_owned()
    }

    pub fn description(&self) -> (res: String)
        ensures
            res@ == "Crea un canale vocale personalizzato!"@,
    {
        "Crea un canale vocale personalizzato!".to_owned()
    }

    /// An empty ephemeral message.
    pub fn respond(&self) -> (res: InteractionResponse)
        ensures
            res.kind == InteractionResponseType::ChannelMessageWithSource,
            res.data == Some(InteractionResponseData { flags: Some(EPHEMERAL), ..empty_data() }),
    {
        let mut data = InteractionResponseData::empty();
        data.flags = Some(EPHEMERAL);
        InteractionResponse { kind: InteractionResponseType::ChannelMessageWithSource, data: Some(data) }
    }
}

} // verus!
