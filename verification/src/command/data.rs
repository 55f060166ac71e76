//! The command that explains what the bot stores.

use vstd::prelude::*;

use crate::utility::platform::blank_embed;
use crate::utility::platform::CommandSchema;
use crate::utility::platform::Embed;
use crate::utility::platform::EmbedView;
use crate::utility::platform::Message;
use crate::utility::platform::MessageView;
use crate::utility::platform::UserProfile;
use crate::utility::platform::USE_APPLICATION_COMMANDS;
use crate::utility::BOT_COLOR;

verus! {

/// The name of the command.
pub const NAME: &'static str = "data";

/// The command as it is registered.
pub fn new() -> (command: CommandSchema)
    ensures
        command.name@ == NAME@,
        command.description@ == "Displays information about data usage and privacy"@,
        command.default_member_permissions == USE_APPLICATION_COMMANDS,
        command.dm_permission,
        command.options@.len() == 0,
{
    CommandSchema::new(NAME).default_member_permissions(USE_APPLICATION_COMMANDS).description(
        "Displays information about data usage and privacy",
    ).dm_permission(true)
}

/// The reply: the notice `text` under the bot's own name, for the eyes of
/// the user who asked.
pub fn run_command(bot: &UserProfile, text: &str) -> (message: Message)
    ensures
        message@ == (MessageView {
            embed: Some(
                EmbedView {
                    author: Some(bot.author_spec()),
                    color: Some(BOT_COLOR),
                    description: Some(text@),
                    title: Some("Data Usage and Privacy"@),
                    ..blank_embed()
                },
            ),
            buttons: Seq::empty(),
            ephemeral: true,
        }),
{
    let embed = Embed::new().author(bot.as_author()).color(BOT_COLOR).description(text).title(
        "Data Usage and Privacy",
    );
    Message::new().embed(embed).ephemeral(true)
}

} // verus!
