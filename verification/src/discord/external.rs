//! Discord model types that the library carries from one place to another
//! without looking inside them.

use vstd::prelude::*;

verus! {

#[verifier::external_type_specification]
#[verifier::external_body]
pub struct ExEmojiReactionType(twilight_model::channel::message::EmojiReactionType);

#[verifier::external_type_specification]
#[verifier::external_body]
pub struct ExChannelType(twilight_model::channel::ChannelType);

#[verifier::external_type_specification]
#[verifier::external_body]
pub struct ExSelectDefaultValue(twilight_model::channel::message::component::SelectDefaultValue);

#[verifier::external_type_specification]
#[verifier::external_body]
pub struct ExSelectMenuOption(twilight_model::channel::message::component::SelectMenuOption);

#[verifier::external_type_specification]
#[verifier::external_body]
pub struct ExAllowedMentions(twilight_model::channel::message::AllowedMentions);

#[verifier::external_type_specification]
#[verifier::external_body]
pub struct ExAttachment(twilight_model::http::attachment::Attachment);

#[verifier::external_type_specification]
#[verifier::external_body]
pub struct ExPoll(twilight_model::poll::Poll);

#[verifier::external_type_specification]
#[verifier::external_body]
pub struct ExTimestamp(twilight_model::util::Timestamp);

} // verus!
