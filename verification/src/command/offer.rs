//! The command that posts a trade offer with a date of expiry.

use vstd::prelude::*;
use vstd::string::*;

use crate::command::get_i64;
use crate::command::get_str;
use crate::command::i64_option;
use crate::command::str_option;
use crate::utility::clock::now_millis;
use crate::utility::formatting::TimeString;
use crate::utility::platform::blank_embed;
use crate::utility::platform::CommandOptionType;
use crate::utility::platform::CommandSchema;
use crate::utility::platform::Embed;
use crate::utility::platform::EmbedFieldView;
use crate::utility::platform::EmbedView;
use crate::utility::platform::Message;
use crate::utility::platform::MessageView;
use crate::utility::platform::OptionSchema;
use crate::utility::platform::ResolvedOption;
use crate::utility::platform::UserProfile;
use crate::utility::platform::SEND_MESSAGES;
use crate::utility::Error;
use crate::utility::ErrorView;
use crate::utility::Result;
use crate::utility::Value;

verus! {

/// The name of the command.
pub const NAME: &'static str = "offer";

pub const OPTION_OFFER: &'static str = "offer";

pub const OPTION_PRICE: &'static str = "price";

pub const OPTION_MINUTES: &'static str = "minutes";

/// The command as it is registered.
pub fn new() -> (command: CommandSchema)
    ensures
        command.name@ == NAME@,
        command.description@ == "Create a new trade offer"@,
        command.default_member_permissions == SEND_MESSAGES,
        !command.dm_permission,
        command.option_names() == seq![OPTION_OFFER@, OPTION_PRICE@, OPTION_MINUTES@],
{
    let command = CommandSchema::new(NAME).default_member_permissions(SEND_MESSAGES).description(
        "Create a new trade offer",
    ).dm_permission(false).add_option(
        OptionSchema::new(
            CommandOptionType::String,
            OPTION_OFFER,
            "What are you giving away?",
        ).max_length(256).required(true),
    ).add_option(
        OptionSchema::new(
            CommandOptionType::String,
            OPTION_PRICE,
            "What do you want in return?",
        ).max_length(256).required(true),
    ).add_option(
        OptionSchema::new(
            CommandOptionType::Integer,
            OPTION_MINUTES,
            "For how long is this valid?",
        ).max_int_value(14400).min_int_value(5).required(true),
    );
    assert(command.option_names() == seq![OPTION_OFFER@, OPTION_PRICE@, OPTION_MINUTES@]);
    command
}

/// What the command comes to at the moment `now`: the offer, the price and
/// the duration are required, in this order; a duration that leads beyond
/// the range of timestamps is reported as an invalid value. The reply is
/// the offer under the user's name, with the moment at which it expires.
pub open spec fn offered(
    o: Seq<ResolvedOption>,
    user: &UserProfile,
    now: i64,
    r: Result<Message>,
) -> bool {
    match str_option(o, OPTION_OFFER@) {
        Err(e) => r matches Err(got) && got@ == e,
        Ok(offer) => match str_option(o, OPTION_PRICE@) {
            Err(e) => r matches Err(got) && got@ == e,
            Ok(price) => match i64_option(o, OPTION_MINUTES@) {
                Err(e) => r matches Err(got) && got@ == e,
                Ok(minutes) => {
                    let expiry = now + minutes * 60_000;
                    if expiry < i64::MIN || expiry > i64::MAX {
                        r matches Err(got) && got@ == ErrorView::InvalidValue(
                            Value::Data,
                            OPTION_MINUTES@,
                        )
                    } else {
                        r matches Ok(message) && message@ == (MessageView {
                            embed: Some(
                                EmbedView {
                                    author: Some(user.author_spec()),
                                    color: Some(user.colour_spec()),
                                    description: Some(
                                        "**Expires:** "@ + TimeString(
                                            expiry as i64,
                                            None,
                                        ).markup(),
                                    ),
                                    fields: seq![
                                        EmbedFieldView {
                                            name: "Offer"@,
                                            value: offer,
                                            inline: false,
                                        },
                                        EmbedFieldView {
                                            name: "Price"@,
                                            value: price,
                                            inline: false,
                                        },
                                    ],
                                    thumbnail: Some(user.face@),
                                    ..blank_embed()
                                },
                            ),
                            buttons: Seq::empty(),
                            ephemeral: false,
                        })
                    }
                },
            },
        },
    }
}

/// Decides what the command comes to at the moment `now`.
pub fn run_command_at(o: &[ResolvedOption], user: &UserProfile, now: i64) -> (r: Result<Message>)
    ensures
        offered(o@, user, now, r),
{
    let offer = get_str(o, OPTION_OFFER)?;
    let price = get_str(o, OPTION_PRICE)?;
    let minutes = get_i64(o, OPTION_MINUTES)?;
    let expiry = (now as i128) + (minutes as i128) * 60_000;
    if expiry < (i64::MIN as i128) || expiry > (i64::MAX as i128) {
        return Err(Error::InvalidValue(Value::Data, String::from_str(OPTION_MINUTES)));
    }
    let time = TimeString::new(expiry as i64);
    let mut description = String::from_str("**Expires:** ");
    description.append(time.to_string().as_str());
    let embed = Embed::new().author(user.as_author()).color(user.colour()).description(
        description.as_str(),
    ).field("Offer", offer, false).field("Price", price, false).thumbnail(user.face.as_str());
    assert(embed@.fields =~= seq![
        EmbedFieldView { name: "Offer"@, value: offer@, inline: false },
        EmbedFieldView { name: "Price"@, value: price@, inline: false },
    ]);
    Ok(Message::new().embed(embed))
}

/// Decides what the command comes to at the present moment.
pub fn run_command(o: &[ResolvedOption], user: &UserProfile) -> (r: Result<Message>)
    ensures
        exists|now: i64| offered(o@, user, now, r),
{
    let now = now_millis();
    run_command_at(o, user, now)
}

} // verus!
