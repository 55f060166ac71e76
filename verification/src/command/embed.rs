//! The command that posts an embed put together from its options.

use vstd::prelude::*;
use vstd::string::*;

use crate::command::find_bool;
use crate::command::find_str;
use crate::command::optional_bool;
use crate::command::optional_str;
use crate::utility::platform::CommandOptionType;
use crate::utility::platform::CommandSchema;
use crate::utility::platform::Embed;
use crate::utility::platform::EmbedAuthor;
use crate::utility::platform::EmbedAuthorView;
use crate::utility::platform::EmbedFieldView;
use crate::utility::platform::EmbedFooter;
use crate::utility::platform::EmbedFooterView;
use crate::utility::platform::EmbedView;
use crate::utility::platform::Message;
use crate::utility::platform::MessageView;
use crate::utility::platform::OptionSchema;
use crate::utility::platform::BLITZ_BLUE;
use crate::utility::platform::BLUE;
use crate::utility::platform::DARKER_GREY;
use crate::utility::platform::DARK_BLUE;
use crate::utility::platform::DARK_GOLD;
use crate::utility::platform::DARK_GREEN;
use crate::utility::platform::DARK_GREY;
use crate::utility::platform::DARK_ORANGE;
use crate::utility::platform::DARK_PURPLE;
use crate::utility::platform::DARK_RED;
use crate::utility::platform::DARK_TEAL;
use crate::utility::platform::FABLED_PINK;
use crate::utility::platform::GOLD;
use crate::utility::platform::KERBAL;
use crate::utility::platform::LIGHTER_GREY;
use crate::utility::platform::LIGHT_GREY;
use crate::utility::platform::MEIBE_PINK;
use crate::utility::platform::ORANGE;
use crate::utility::platform::PURPLE;
use crate::utility::platform::RED;
use crate::utility::platform::ResolvedOption;
use crate::utility::platform::EMBED_LINKS;
use crate::utility::text::hex6;
use crate::utility::text::hex6_seq;
use crate::utility::text::parse_hex;
use crate::utility::text::parse_hex_seq;
use crate::utility::text::trim;
use crate::utility::text::trimmed;
use crate::utility::text::unescape_newlines;
use crate::utility::text::unescape_seq;
use crate::utility::Error;
use crate::utility::Result;
use crate::utility::BOT_COLOR;

verus! {

/// The name of the command.
pub const NAME: &'static str = "embed";

pub const OPTION_AUTHOR_ICON: &'static str = "author_icon";

pub const OPTION_AUTHOR_LINK: &'static str = "author_link";

pub const OPTION_AUTHOR_NAME: &'static str = "author_name";

pub const OPTION_EMBED_COLOR: &'static str = "color";

pub const OPTION_DESCRIPTION: &'static str = "description";

pub const OPTION_FOOTER_ICON: &'static str = "footer_icon";

pub const OPTION_FOOTER_TEXT: &'static str = "footer_text";

pub const OPTION_IMAGE_LINK: &'static str = "image_link";

pub const OPTION_THUMB_LINK: &'static str = "thumbnail_link";

pub const OPTION_TITLE_TEXT: &'static str = "title_text";

pub const OPTION_TITLE_LINK: &'static str = "title_link";

pub const OPTION_EPHEMERAL: &'static str = "ephemeral";

/// The most characters that the texts of an embed can have together.
pub const MAX_CHARACTERS: u128 = 6000;

/// The option that offers the colours, each under its name and as six
/// hexadecimal digits; the user's own colour is offered as the empty text.
fn color_schema() -> (option: OptionSchema)
    ensures
        option.name@ == OPTION_EMBED_COLOR@,
        option.kind == CommandOptionType::String,
        !option.required,
        option.string_choices@.len() == 22,
        option.string_choices@[0].1@ == hex6_seq(BOT_COLOR),
        option.string_choices@[1].1@ == Seq::<char>::empty(),
        option.string_choices@[2].1@ == hex6_seq(RED),
{
    let option = OptionSchema::new(
        CommandOptionType::String,
        OPTION_EMBED_COLOR,
        "The embed's color",
    ).add_string_choice("Default", hex6(BOT_COLOR)).add_string_choice(
        "User",
        String::new(),
    ).add_string_choice("Red", hex6(RED));
    let ghost head = option.string_choices@;
    assert(head.len() == 3 && head[0].1@ == hex6_seq(BOT_COLOR) && head[1].1@ == Seq::<
        char,
    >::empty() && head[2].1@ == hex6_seq(RED)) by {
        let two = head.drop_last();
        let one = two.drop_last();
        assert(head[1] == two[1]);
        assert(head[0] == two[0] && two[0] == one[0]);
    }
    let option = option.add_string_choice("Orange", hex6(ORANGE)).add_string_choice(
        "Yellow",
        hex6(GOLD),
    ).add_string_choice("Green", hex6(KERBAL)).add_string_choice(
        "Teal",
        hex6(BLITZ_BLUE),
    ).add_string_choice("Blue", hex6(BLUE)).add_string_choice(
        "Purple",
        hex6(PURPLE),
    ).add_string_choice("Pink", hex6(FABLED_PINK)).add_string_choice(
        "Dark Red",
        hex6(DARK_RED),
    ).add_string_choice("Dark Orange", hex6(DARK_ORANGE)).add_string_choice(
        "Dark Yellow",
        hex6(DARK_GOLD),
    ).add_string_choice("Dark Green", hex6(DARK_GREEN)).add_string_choice(
        "Dark Teal",
        hex6(DARK_TEAL),
    ).add_string_choice("Dark Blue", hex6(DARK_BLUE)).add_string_choice(
        "Dark Purple",
        hex6(DARK_PURPLE),
    ).add_string_choice("Dark Pink", hex6(MEIBE_PINK)).add_string_choice(
        "White",
        hex6(LIGHTER_GREY),
    ).add_string_choice("Gray", hex6(LIGHT_GREY)).add_string_choice(
        "Dark Gray",
        hex6(DARK_GREY),
    ).add_string_choice("Black", hex6(DARKER_GREY));
    option
}

/// The command as it is registered: twelve options, none of them
/// required.
pub fn new() -> (command: CommandSchema)
    ensures
        command.name@ == NAME@,
        command.description@ == "Creates an embedded message"@,
        command.default_member_permissions == EMBED_LINKS,
        !command.dm_permission,
        command.option_names() == seq![
            OPTION_AUTHOR_ICON@,
            OPTION_AUTHOR_LINK@,
            OPTION_AUTHOR_NAME@,
            OPTION_EMBED_COLOR@,
            OPTION_DESCRIPTION@,
            OPTION_FOOTER_ICON@,
            OPTION_FOOTER_TEXT@,
            OPTION_IMAGE_LINK@,
            OPTION_THUMB_LINK@,
            OPTION_TITLE_LINK@,
            OPTION_TITLE_TEXT@,
            OPTION_EPHEMERAL@,
        ],
        forall|i: int| 0 <= i < 12 ==> !(#[trigger] command.options@[i]).required,
{
    let command = CommandSchema::new(NAME).default_member_permissions(EMBED_LINKS).description(
        "Creates an embedded message",
    ).dm_permission(false).add_option(
        OptionSchema::new(
            CommandOptionType::String,
            OPTION_AUTHOR_ICON,
            "The embed author's icon link",
        ),
    ).add_option(
        OptionSchema::new(
            CommandOptionType::String,
            OPTION_AUTHOR_LINK,
            "The embed author's link",
        ),
    ).add_option(
        OptionSchema::new(
            CommandOptionType::String,
            OPTION_AUTHOR_NAME,
            "The embed author's name",
        ).max_length(256),
    ).add_option(color_schema()).add_option(
        OptionSchema::new(
            CommandOptionType::String,
            OPTION_DESCRIPTION,
            "The embed's description (supports newline and markdown)",
        ).max_length(4096),
    ).add_option(
        OptionSchema::new(
            CommandOptionType::String,
            OPTION_FOOTER_ICON,
            "The embed footer's icon link",
        ),
    ).add_option(
        OptionSchema::new(
            CommandOptionType::String,
            OPTION_FOOTER_TEXT,
            "The embed footer's text",
        ).max_length(2048),
    ).add_option(
        OptionSchema::new(CommandOptionType::String, OPTION_IMAGE_LINK, "The embed's image link"),
    ).add_option(
        OptionSchema::new(
            CommandOptionType::String,
            OPTION_THUMB_LINK,
            "The embed's thumbnail link",
        ),
    ).add_option(
        OptionSchema::new(
            CommandOptionType::String,
            OPTION_TITLE_LINK,
            "The embed title's link",
        ),
    ).add_option(
        OptionSchema::new(
            CommandOptionType::String,
            OPTION_TITLE_TEXT,
            "The embed title's text",
        ).max_length(2048),
    ).add_option(
        OptionSchema::new(
            CommandOptionType::Boolean,
            OPTION_EPHEMERAL,
            "Whether the embed is ephemeral (only visible to you)",
        ),
    );
    assert(command.option_names() == seq![
        OPTION_AUTHOR_ICON@,
        OPTION_AUTHOR_LINK@,
        OPTION_AUTHOR_NAME@,
        OPTION_EMBED_COLOR@,
        OPTION_DESCRIPTION@,
        OPTION_FOOTER_ICON@,
        OPTION_FOOTER_TEXT@,
        OPTION_IMAGE_LINK@,
        OPTION_THUMB_LINK@,
        OPTION_TITLE_LINK@,
        OPTION_TITLE_TEXT@,
        OPTION_EPHEMERAL@,
    ]);
    command
}

/// Whether the colour chosen is the user's own, so that the user's colour
/// is needed to build the embed.
pub fn wants_user_color(o: &[ResolvedOption]) -> (wanted: bool)
    ensures
        wanted == (optional_str(o@, OPTION_EMBED_COLOR@) == Some(Seq::<char>::empty())),
{
    match find_str(o, OPTION_EMBED_COLOR) {
        Some(hex) => {
            assert(hex@.len() == 0 ==> hex@ =~= Seq::<char>::empty());
            hex.unicode_len() == 0
        },
        None => false,
    }
}

/// The description as it is shown: the two characters `\n` stand for a line
/// feed, and white space at both ends is dropped.
pub open spec fn shown_description(text: Seq<char>) -> Seq<char> {
    trimmed(unescape_seq(text))
}

/// The embed that the options describe. `accent` is the user's own colour.
/// A colour that is no hexadecimal number, and the colour of a user who
/// chose none, give way to the bot's colour; the title's link counts only
/// with a title, the author's picture and link only with a name, and the
/// footer's picture only with a text.
pub open spec fn composed(o: Seq<ResolvedOption>, accent: Option<u32>) -> EmbedView {
    EmbedView {
        author: match optional_str(o, OPTION_AUTHOR_NAME@) {
            Some(name) => Some(
                EmbedAuthorView {
                    name,
                    icon_url: optional_str(o, OPTION_AUTHOR_ICON@),
                    url: optional_str(o, OPTION_AUTHOR_LINK@),
                },
            ),
            None => None,
        },
        color: match optional_str(o, OPTION_EMBED_COLOR@) {
            Some(hex) => Some(
                match (if hex.len() == 0 {
                    accent
                } else {
                    parse_hex_seq(hex)
                }) {
                    Some(color) => color,
                    None => BOT_COLOR,
                },
            ),
            None => None,
        },
        description: match optional_str(o, OPTION_DESCRIPTION@) {
            Some(text) => Some(shown_description(text)),
            None => None,
        },
        fields: Seq::empty(),
        footer: match optional_str(o, OPTION_FOOTER_TEXT@) {
            Some(text) => Some(
                EmbedFooterView { text, icon_url: optional_str(o, OPTION_FOOTER_ICON@) },
            ),
            None => None,
        },
        image: optional_str(o, OPTION_IMAGE_LINK@),
        thumbnail: optional_str(o, OPTION_THUMB_LINK@),
        title: optional_str(o, OPTION_TITLE_TEXT@),
        url: match optional_str(o, OPTION_TITLE_TEXT@) {
            Some(_) => optional_str(o, OPTION_TITLE_LINK@),
            None => None,
        },
    }
}

/// Whether the options give the embed anything to show.
pub open spec fn visible(o: Seq<ResolvedOption>) -> bool {
    ||| optional_str(o, OPTION_AUTHOR_NAME@) is Some
    ||| optional_str(o, OPTION_DESCRIPTION@) is Some
    ||| optional_str(o, OPTION_FOOTER_TEXT@) is Some
    ||| optional_str(o, OPTION_IMAGE_LINK@) is Some
    ||| optional_str(o, OPTION_THUMB_LINK@) is Some
    ||| optional_str(o, OPTION_TITLE_TEXT@) is Some
}

/// The number of characters of an optional text.
pub open spec fn length_of(text: Option<Seq<char>>) -> int {
    match text {
        Some(text) => text.len() as int,
        None => 0,
    }
}

/// The number of characters that the embed's texts have together: the
/// author's name, the description as it is shown, the footer and the
/// title.
pub open spec fn characters(o: Seq<ResolvedOption>) -> int {
    length_of(optional_str(o, OPTION_AUTHOR_NAME@)) + length_of(
        match optional_str(o, OPTION_DESCRIPTION@) {
            Some(text) => Some(shown_description(text)),
            None => None,
        },
    ) + length_of(optional_str(o, OPTION_FOOTER_TEXT@)) + length_of(
        optional_str(o, OPTION_TITLE_TEXT@),
    )
}

/// The number of characters of an optional text.
fn length(text: Option<&str>) -> (count: u128)
    ensures
        count == length_of(text.deep_view()),
        count <= usize::MAX,
{
    match text {
        Some(text) => text.unicode_len() as u128,
        None => 0,
    }
}

/// A copy of an optional text.
fn owned(text: Option<&str>) -> (copy: Option<String>)
    ensures
        copy.deep_view() == text.deep_view(),
{
    match text {
        Some(text) => Some(text.to_owned()),
        None => None,
    }
}

/// The author that the options describe, if they name one.
fn author(o: &[ResolvedOption]) -> (author: Option<EmbedAuthor>)
    ensures
        author.deep_view() == composed(o@, None).author,
{
    match find_str(o, OPTION_AUTHOR_NAME) {
        Some(name) => Some(
            EmbedAuthor {
                name: name.to_owned(),
                icon_url: owned(find_str(o, OPTION_AUTHOR_ICON)),
                url: owned(find_str(o, OPTION_AUTHOR_LINK)),
            },
        ),
        None => None,
    }
}

/// The colour that the options describe, if they name one.
fn color(o: &[ResolvedOption], accent: Option<u32>) -> (color: Option<u32>)
    ensures
        color == composed(o@, accent).color,
{
    match find_str(o, OPTION_EMBED_COLOR) {
        Some(hex) => {
            let color = if hex.unicode_len() == 0 {
                accent
            } else {
                parse_hex(hex)
            };
            Some(
                match color {
                    Some(color) => color,
                    None => BOT_COLOR,
                },
            )
        },
        None => None,
    }
}

/// The description that the options hold, as it is shown.
fn description(o: &[ResolvedOption]) -> (text: Option<String>)
    ensures
        text.deep_view() == composed(o@, None).description,
{
    match find_str(o, OPTION_DESCRIPTION) {
        Some(text) => {
            let text = unescape_newlines(text);
            Some(trim(text.as_str()).to_owned())
        },
        None => None,
    }
}

/// The footer that the options describe, if they hold its text.
fn footer(o: &[ResolvedOption]) -> (footer: Option<EmbedFooter>)
    ensures
        footer.deep_view() == composed(o@, None).footer,
{
    match find_str(o, OPTION_FOOTER_TEXT) {
        Some(text) => Some(
            EmbedFooter {
                text: text.to_owned(),
                icon_url: owned(find_str(o, OPTION_FOOTER_ICON)),
            },
        ),
        None => None,
    }
}

/// The link of the title, which counts only with a title.
fn title_link(o: &[ResolvedOption]) -> (link: Option<String>)
    ensures
        link.deep_view() == composed(o@, None).url,
{
    match find_str(o, OPTION_TITLE_TEXT) {
        Some(_) => owned(find_str(o, OPTION_TITLE_LINK)),
        None => None,
    }
}

/// Builds the embed that the options describe, and the reply that shows
/// it. `accent` is the colour that the user chose for their profile.
///
/// Refused when the options give the embed nothing to show, and when its
/// texts have more than six thousand characters together. The reply is
/// for the user's eyes only if the option `ephemeral` says so.
pub fn run_command(o: &[ResolvedOption], accent: Option<u32>) -> (r: Result<Message>)
    ensures
        if !visible(o@) {
            r == Err::<Message, Error>(Error::Other("A visible element must be provided"))
        } else if characters(o@) > 6000 {
            r == Err::<Message, Error>(
                Error::Other("Content must have at most 6000 characters"),
            )
        } else {
            r matches Ok(message) && message@ == (MessageView {
                embed: Some(composed(o@, accent)),
                buttons: Seq::empty(),
                ephemeral: optional_bool(o@, OPTION_EPHEMERAL@) == Some(true),
            })
        },
{
    let author = author(o);
    let description = description(o);
    let footer = footer(o);
    let image = owned(find_str(o, OPTION_IMAGE_LINK));
    let thumbnail = owned(find_str(o, OPTION_THUMB_LINK));
    let title = owned(find_str(o, OPTION_TITLE_TEXT));
    let valid = author.is_some() || description.is_some() || footer.is_some() || image.is_some()
        || thumbnail.is_some() || title.is_some();
    if !valid {
        return Err(Error::Other("A visible element must be provided"));
    }
    let shown: Option<&str> = match &description {
        Some(text) => Some(text.as_str()),
        None => None,
    };
    let count = length(find_str(o, OPTION_AUTHOR_NAME)) + length(shown) + length(
        find_str(o, OPTION_FOOTER_TEXT),
    ) + length(find_str(o, OPTION_TITLE_TEXT));
    if count > MAX_CHARACTERS {
        return Err(Error::Other("Content must have at most 6000 characters"));
    }
    let embed = Embed {
        author,
        color: color(o, accent),
        description,
        fields: Vec::new(),
        footer,
        image,
        thumbnail,
        title,
        url: title_link(o),
    };
    assert(embed.fields.deep_view() == Seq::<EmbedFieldView>::empty());
    let ephemeral = find_bool(o, OPTION_EPHEMERAL) == Some(true);
    Ok(Message::new().embed(embed).ephemeral(ephemeral))
}

} // verus!
