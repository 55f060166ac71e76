//! The command that quotes what a user said.

use vstd::prelude::*;
use vstd::string::*;

use crate::command::get_str;
use crate::command::get_user;
use crate::command::str_option;
use crate::command::user_option;
use crate::utility::platform::blank_embed;
use crate::utility::platform::CommandOptionType;
use crate::utility::platform::CommandSchema;
use crate::utility::platform::Embed;
use crate::utility::platform::EmbedView;
use crate::utility::platform::Message;
use crate::utility::platform::MessageView;
use crate::utility::platform::OptionSchema;
use crate::utility::platform::ResolvedOption;
use crate::utility::platform::UserProfile;
use crate::utility::platform::SEND_MESSAGES;
use crate::utility::Error;
use crate::utility::Result;

verus! {

/// The name of the command.
pub const NAME: &'static str = "quote";

pub const OPTION_USER: &'static str = "user";

pub const OPTION_TEXT: &'static str = "text";

/// The command as it is registered.
pub fn new() -> (command: CommandSchema)
    ensures
        command.name@ == NAME@,
        command.description@ == "Quote something that a user said!"@,
        command.default_member_permissions == SEND_MESSAGES,
        !command.dm_permission,
        command.option_names() == seq![OPTION_USER@, OPTION_TEXT@],
{
    let command = CommandSchema::new(NAME).default_member_permissions(SEND_MESSAGES).description(
        "Quote something that a user said!",
    ).dm_permission(false).add_option(
        OptionSchema::new(CommandOptionType::User, OPTION_USER, "Who said it?").required(true),
    ).add_option(
        OptionSchema::new(CommandOptionType::String, OPTION_TEXT, "What did they say?").max_length(
            256,
        ).required(true),
    );
    assert(command.option_names() == seq![OPTION_USER@, OPTION_TEXT@]);
    command
}

/// The user whom the command quotes.
pub fn quoted(o: &[ResolvedOption]) -> (r: Result<u64>)
    ensures
        match user_option(o@, OPTION_USER@) {
            Ok(id) => r == Ok::<u64, Error>(id),
            Err(e) => r matches Err(got) && got@ == e,
        },
{
    get_user(o, OPTION_USER)
}

/// The reply: what `user` said, as a quotation under their name. Nobody
/// quotes themselves, and nobody quotes a bot; the text is required.
pub fn run_command(o: &[ResolvedOption], user: &UserProfile, actor: u64) -> (r: Result<Message>)
    ensures
        if user.id == actor {
            r == Err::<Message, Error>(Error::Other("You cannot quote yourself"))
        } else if user.bot {
            r == Err::<Message, Error>(Error::Other("You cannot quote a bot"))
        } else {
            match str_option(o@, OPTION_TEXT@) {
                Err(e) => r matches Err(got) && got@ == e,
                Ok(text) => r matches Ok(message) && message@ == (MessageView {
                    embed: Some(
                        EmbedView {
                            author: Some(user.author_spec()),
                            color: Some(user.colour_spec()),
                            description: Some("> "@ + text),
                            ..blank_embed()
                        },
                    ),
                    buttons: Seq::empty(),
                    ephemeral: false,
                }),
            }
        },
{
    if user.id == actor {
        return Err(Error::Other("You cannot quote yourself"));
    }
    if user.bot {
        return Err(Error::Other("You cannot quote a bot"));
    }
    let text = get_str(o, OPTION_TEXT)?;
    let mut description = String::from_str("> ");
    description.append(text);
    let embed = Embed::new().author(user.as_author()).color(user.colour()).description(
        description.as_str(),
    );
    Ok(Message::new().embed(embed))
}

} // verus!
