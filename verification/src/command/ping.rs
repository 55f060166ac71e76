//! The command that measures how long the platform takes to answer.

use vstd::prelude::*;
use vstd::string::*;

use crate::utility::clock::created_millis;
use crate::utility::clock::lemma_created_millis_bounds;
use crate::utility::clock::snowflake_millis;
use crate::utility::platform::blank_embed;
use crate::utility::platform::CommandSchema;
use crate::utility::platform::Embed;
use crate::utility::platform::EmbedView;
use crate::utility::platform::Message;
use crate::utility::platform::MessageView;
use crate::utility::platform::USE_APPLICATION_COMMANDS;
use crate::utility::text::signed_decimal;
use crate::utility::text::signed_decimal_seq;
use crate::utility::BOT_COLOR;

verus! {

/// The name of the command.
pub const NAME: &'static str = "ping";

/// The command as it is registered.
pub fn new() -> (command: CommandSchema)
    ensures
        command.name@ == NAME@,
        command.description@ == "Check the bot's API response time"@,
        command.default_member_permissions == USE_APPLICATION_COMMANDS,
        command.dm_permission,
        command.options@.len() == 0,
{
    CommandSchema::new(NAME).default_member_permissions(USE_APPLICATION_COMMANDS).description(
        "Check the bot's API response time",
    ).dm_permission(true)
}

/// The first reply, sent before the time is known.
pub open spec fn waiting_spec() -> MessageView {
    MessageView {
        embed: Some(
            EmbedView { color: Some(BOT_COLOR), title: Some("Calculating..."@), ..blank_embed() },
        ),
        buttons: Seq::empty(),
        ephemeral: true,
    }
}

/// The first reply, sent before the time is known.
pub fn waiting() -> (message: Message)
    ensures
        message@ == waiting_spec(),
{
    Message::new().embed(Embed::new().color(BOT_COLOR).title("Calculating...")).ephemeral(true)
}

/// The time, in milliseconds, between the creation of the interaction and
/// the creation of the reply to it.
pub fn latency(response: u64, interaction: u64) -> (ms: i64)
    requires
        response != 0,
        interaction != 0,
    ensures
        ms == created_millis(response) - created_millis(interaction),
{
    proof {
        lemma_created_millis_bounds(response);
        lemma_created_millis_bounds(interaction);
    }
    snowflake_millis(response) - snowflake_millis(interaction)
}

/// The title of the final reply.
pub open spec fn pong_title(ms: int) -> Seq<char> {
    "Pong! ("@ + signed_decimal_seq(ms) + "ms)"@
}

/// The embed of the final reply, which shows the time measured.
pub fn pong(ms: i64) -> (embed: Embed)
    ensures
        embed@ == (EmbedView {
            color: Some(BOT_COLOR),
            title: Some(pong_title(ms as int)),
            ..blank_embed()
        }),
{
    let mut title = String::from_str("Pong! (");
    title.append(signed_decimal(ms).as_str());
    title.append("ms)");
    Embed::new().color(BOT_COLOR).title(title.as_str())
}

} // verus!
