//! Plain descriptions of what is received from and sent to the platform:
//! command options and modal fields on the way in; buttons, text inputs,
//! modals and messages on the way out.

use vstd::prelude::*;

use crate::utility::text::push_char;
use crate::utility::BOT_COLOR;

verus! {

/// An emoji on a button.
#[derive(Clone, Debug, PartialEq, Eq)]
pub enum Emoji {
    /// A Unicode emoji, as text.
    Unicode(String),
    /// A guild's own emoji.
    Custom { animated: bool, id: u64, name: Option<String> },
}

/// The mathematical value of an [`Emoji`].
pub ghost enum EmojiView {
    Unicode(Seq<char>),
    Custom { animated: bool, id: u64, name: Option<Seq<char>> },
}

impl View for Emoji {
    type V = EmojiView;

    open spec fn view(&self) -> EmojiView {
        match self {
            Emoji::Unicode(text) => EmojiView::Unicode(text@),
            Emoji::Custom { animated, id, name } => EmojiView::Custom {
                animated: *animated,
                id: *id,
                name: name.deep_view(),
            },
        }
    }
}

impl DeepView for Emoji {
    type V = EmojiView;

    open spec fn deep_view(&self) -> EmojiView {
        self@
    }
}

/// What serenity reads from the text of an emoji.
pub uninterp spec fn reaction_of(text: Seq<char>) -> Option<EmojiView>;

impl Emoji {
    /// Reads an emoji from the text a user typed: a Unicode emoji as it
    /// stands, or a guild's emoji in the platform's `<:name:id>` notation.
    ///
    /// Trusted: stands for serenity's `ReactionType::try_from(&str)`, whose
    /// result is handed on field by field. The empty text is refused, and a
    /// text that does not begin with `<` is taken whole as a Unicode emoji;
    /// how the bracketed notation is read is left to serenity.
    #[verifier::external_body]
    pub(crate) fn parse(text: &str) -> (emoji: Option<Emoji>)
        ensures
            emoji.deep_view() == reaction_of(text@),
            text@.len() == 0 ==> emoji is None,
            text@.len() > 0 && text@[0] != '<' ==> emoji.deep_view() == Some(
                EmojiView::Unicode(text@),
            ),
    {
        match serenity::model::channel::ReactionType::try_from(text) {
            Ok(serenity::model::channel::ReactionType::Unicode(text)) => Some(
                Emoji::Unicode(text),
            ),
            Ok(serenity::model::channel::ReactionType::Custom { animated, id, name }) => Some(
                Emoji::Custom { animated, id: id.get(), name },
            ),
            _ => None,
        }
    }

    /// A copy of the emoji.
    pub fn duplicate(&self) -> (copy: Emoji)
        ensures
            copy@ == self@,
    {
        match self {
            Emoji::Unicode(text) => Emoji::Unicode(text.clone()),
            Emoji::Custom { animated, id, name } => {
                let name = match name {
                    Some(text) => Some(text.clone()),
                    None => None,
                };
                Emoji::Custom { animated: *animated, id: *id, name }
            },
        }
    }
}

/// The look of a button.
#[derive(Clone, Copy, Debug, PartialEq, Eq, Structural)]
pub enum ButtonStyle {
    Primary,
    Secondary,
    Success,
    Danger,
}

/// A button below a message. Pressing it sends its identifier back.
#[derive(Debug)]
pub struct Button {
    pub custom_id: String,
    pub disabled: bool,
    pub emoji: Option<Emoji>,
    pub label: Option<String>,
    pub style: ButtonStyle,
}

/// The mathematical value of a [`Button`].
pub ghost struct ButtonView {
    pub custom_id: Seq<char>,
    pub disabled: bool,
    pub emoji: Option<EmojiView>,
    pub label: Option<Seq<char>>,
    pub style: ButtonStyle,
}

impl View for Button {
    type V = ButtonView;

    open spec fn view(&self) -> ButtonView {
        ButtonView {
            custom_id: self.custom_id@,
            disabled: self.disabled,
            emoji: self.emoji.deep_view(),
            label: self.label.deep_view(),
            style: self.style,
        }
    }
}

impl DeepView for Button {
    type V = ButtonView;

    open spec fn deep_view(&self) -> ButtonView {
        self@
    }
}

impl Button {
    /// An enabled button of the primary style that sends `custom_id` back.
    pub fn new(custom_id: String) -> (button: Self)
        ensures
            button@ == (ButtonView {
                custom_id: custom_id@,
                disabled: false,
                emoji: None,
                label: None,
                style: ButtonStyle::Primary,
            }),
    {
        Button { custom_id, disabled: false, emoji: None, label: None, style: ButtonStyle::Primary }
    }

    /// The same button, greyed out or not.
    pub fn disabled(self, disabled: bool) -> (button: Self)
        ensures
            button@ == (ButtonView { disabled, ..self@ }),
    {
        Button { disabled, ..self }
    }

    /// The same button with the Unicode emoji `emoji` before its label.
    pub fn emoji(self, emoji: char) -> (button: Self)
        ensures
            button@ == (ButtonView { emoji: Some(EmojiView::Unicode(seq![emoji])), ..self@ }),
    {
        let mut text = String::new();
        push_char(&mut text, emoji);
        assert(text@ == seq![emoji]);
        Button { emoji: Some(Emoji::Unicode(text)), ..self }
    }

    /// The same button with `emoji` before its label.
    pub fn icon(self, emoji: Emoji) -> (button: Self)
        ensures
            button@ == (ButtonView { emoji: Some(emoji@), ..self@ }),
    {
        Button { emoji: Some(emoji), ..self }
    }

    /// The same button with the given label.
    pub fn label(self, label: &str) -> (button: Self)
        ensures
            button@ == (ButtonView { label: Some(label@), ..self@ }),
    {
        Button { label: Some(label.to_owned()), ..self }
    }

    /// The same button in another style.
    pub fn style(self, style: ButtonStyle) -> (button: Self)
        ensures
            button@ == (ButtonView { style, ..self@ }),
    {
        Button { style, ..self }
    }
}

/// The height of a text input.
#[derive(Clone, Copy, Debug, PartialEq, Eq, Structural)]
pub enum InputTextStyle {
    Short,
    Paragraph,
}

/// One text field of a modal.
#[derive(Debug)]
pub struct TextInput {
    pub custom_id: String,
    pub label: String,
    pub style: InputTextStyle,
    /// The most characters the field takes, if it is limited.
    pub max_length: Option<u16>,
    pub required: bool,
    pub placeholder: Option<String>,
}

/// The mathematical value of a [`TextInput`].
pub ghost struct TextInputView {
    pub custom_id: Seq<char>,
    pub label: Seq<char>,
    pub style: InputTextStyle,
    pub max_length: Option<u16>,
    pub required: bool,
    pub placeholder: Option<Seq<char>>,
}

impl View for TextInput {
    type V = TextInputView;

    open spec fn view(&self) -> TextInputView {
        TextInputView {
            custom_id: self.custom_id@,
            label: self.label@,
            style: self.style,
            max_length: self.max_length,
            required: self.required,
            placeholder: self.placeholder.deep_view(),
        }
    }
}

impl DeepView for TextInput {
    type V = TextInputView;

    open spec fn deep_view(&self) -> TextInputView {
        self@
    }
}

impl TextInput {
    /// A required field without a placeholder or a limit of its own.
    pub fn new(style: InputTextStyle, label: &str, custom_id: String) -> (input: Self)
        ensures
            input@ == (TextInputView {
                custom_id: custom_id@,
                label: label@,
                style,
                max_length: None,
                required: true,
                placeholder: None,
            }),
    {
        TextInput {
            custom_id,
            label: label.to_owned(),
            style,
            max_length: None,
            required: true,
            placeholder: None,
        }
    }

    /// The same field with another limit on what is typed.
    pub fn max_length(self, max_length: u16) -> (input: Self)
        ensures
            input@ == (TextInputView { max_length: Some(max_length), ..self@ }),
    {
        TextInput { max_length: Some(max_length), ..self }
    }

    /// The same field, mandatory or not.
    pub fn required(self, required: bool) -> (input: Self)
        ensures
            input@ == (TextInputView { required, ..self@ }),
    {
        TextInput { required, ..self }
    }

    /// The same field with a hint shown while it is empty.
    pub fn placeholder(self, placeholder: &str) -> (input: Self)
        ensures
            input@ == (TextInputView { placeholder: Some(placeholder@), ..self@ }),
    {
        TextInput { placeholder: Some(placeholder.to_owned()), ..self }
    }
}

/// A form that pops up over the conversation. Submitting it sends its
/// identifier back, with what was typed into each field.
#[derive(Debug)]
pub struct Modal {
    pub custom_id: String,
    pub title: String,
    pub inputs: Vec<TextInput>,
}

/// The mathematical value of a [`Modal`].
pub ghost struct ModalView {
    pub custom_id: Seq<char>,
    pub title: Seq<char>,
    pub inputs: Seq<TextInputView>,
}

impl View for Modal {
    type V = ModalView;

    open spec fn view(&self) -> ModalView {
        ModalView {
            custom_id: self.custom_id@,
            title: self.title@,
            inputs: self.inputs.deep_view(),
        }
    }
}

/// A role of a guild, as a command option names it.
#[derive(Debug)]
pub struct Role {
    pub id: u64,
    pub name: String,
}

/// The value of one option of a command.
#[derive(Debug)]
pub enum ResolvedValue {
    Boolean(bool),
    /// A channel, by its identifier.
    Channel(u64),
    Integer(i64),
    /// A fractional number; no command of this crate reads one.
    Number,
    Role(Role),
    String(String),
    SubCommand(Vec<ResolvedOption>),
    SubCommandGroup(Vec<ResolvedOption>),
    /// A user, by their identifier.
    User(u64),
    /// Anything else the platform may send.
    Unresolved,
}

/// One named option of a command.
#[derive(Debug)]
pub struct ResolvedOption {
    pub name: String,
    pub value: ResolvedValue,
}

/// A text field of a submitted modal.
#[derive(Debug)]
pub struct InputText {
    pub custom_id: String,
    pub value: String,
}

/// One component of a row of a submitted modal.
#[derive(Debug)]
pub enum ActionRowComponent {
    Button,
    SelectMenu,
    InputText(InputText),
}

/// One row of components of a submitted modal.
#[derive(Debug)]
pub struct ActionRow {
    pub components: Vec<ActionRowComponent>,
}

/// Who an embed is attributed to.
#[derive(Debug)]
pub struct EmbedAuthor {
    pub name: String,
    pub icon_url: Option<String>,
    pub url: Option<String>,
}

/// The mathematical value of an [`EmbedAuthor`].
pub ghost struct EmbedAuthorView {
    pub name: Seq<char>,
    pub icon_url: Option<Seq<char>>,
    pub url: Option<Seq<char>>,
}

impl DeepView for EmbedAuthor {
    type V = EmbedAuthorView;

    open spec fn deep_view(&self) -> EmbedAuthorView {
        EmbedAuthorView {
            name: self.name@,
            icon_url: self.icon_url.deep_view(),
            url: self.url.deep_view(),
        }
    }
}

impl EmbedAuthor {
    /// An author with a name only.
    pub fn new(name: &str) -> (author: Self)
        ensures
            author.deep_view() == (EmbedAuthorView { name: name@, icon_url: None, url: None }),
    {
        EmbedAuthor { name: name.to_owned(), icon_url: None, url: None }
    }

    /// The same author with a picture.
    pub fn icon_url(self, link: &str) -> (author: Self)
        ensures
            author.deep_view() == (EmbedAuthorView { icon_url: Some(link@), ..self.deep_view() }),
    {
        EmbedAuthor { icon_url: Some(link.to_owned()), ..self }
    }

    /// The same author with a link.
    pub fn url(self, link: &str) -> (author: Self)
        ensures
            author.deep_view() == (EmbedAuthorView { url: Some(link@), ..self.deep_view() }),
    {
        EmbedAuthor { url: Some(link.to_owned()), ..self }
    }
}

/// The small print below an embed.
#[derive(Debug)]
pub struct EmbedFooter {
    pub text: String,
    pub icon_url: Option<String>,
}

/// The mathematical value of an [`EmbedFooter`].
pub ghost struct EmbedFooterView {
    pub text: Seq<char>,
    pub icon_url: Option<Seq<char>>,
}

impl DeepView for EmbedFooter {
    type V = EmbedFooterView;

    open spec fn deep_view(&self) -> EmbedFooterView {
        EmbedFooterView { text: self.text@, icon_url: self.icon_url.deep_view() }
    }
}

impl EmbedFooter {
    /// A footer with a text only.
    pub fn new(text: &str) -> (footer: Self)
        ensures
            footer.deep_view() == (EmbedFooterView { text: text@, icon_url: None }),
    {
        EmbedFooter { text: text.to_owned(), icon_url: None }
    }

    /// The same footer with a picture.
    pub fn icon_url(self, link: &str) -> (footer: Self)
        ensures
            footer.deep_view() == (EmbedFooterView { icon_url: Some(link@), ..self.deep_view() }),
    {
        EmbedFooter { icon_url: Some(link.to_owned()), ..self }
    }
}

/// A titled paragraph of an embed.
#[derive(Debug)]
pub struct EmbedField {
    pub name: String,
    pub value: String,
    pub inline: bool,
}

/// The mathematical value of an [`EmbedField`].
pub ghost struct EmbedFieldView {
    pub name: Seq<char>,
    pub value: Seq<char>,
    pub inline: bool,
}

impl DeepView for EmbedField {
    type V = EmbedFieldView;

    open spec fn deep_view(&self) -> EmbedFieldView {
        EmbedFieldView { name: self.name@, value: self.value@, inline: self.inline }
    }
}

/// A framed block of a message.
#[derive(Debug)]
pub struct Embed {
    pub author: Option<EmbedAuthor>,
    /// The colour of the frame, as `0xRRGGBB`.
    pub color: Option<u32>,
    pub description: Option<String>,
    pub fields: Vec<EmbedField>,
    pub footer: Option<EmbedFooter>,
    pub image: Option<String>,
    pub thumbnail: Option<String>,
    pub title: Option<String>,
    pub url: Option<String>,
}

/// The mathematical value of an [`Embed`].
pub ghost struct EmbedView {
    pub author: Option<EmbedAuthorView>,
    pub color: Option<u32>,
    pub description: Option<Seq<char>>,
    pub fields: Seq<EmbedFieldView>,
    pub footer: Option<EmbedFooterView>,
    pub image: Option<Seq<char>>,
    pub thumbnail: Option<Seq<char>>,
    pub title: Option<Seq<char>>,
    pub url: Option<Seq<char>>,
}

impl View for Embed {
    type V = EmbedView;

    open spec fn view(&self) -> EmbedView {
        EmbedView {
            author: self.author.deep_view(),
            color: self.color,
            description: self.description.deep_view(),
            fields: self.fields.deep_view(),
            footer: self.footer.deep_view(),
            image: self.image.deep_view(),
            thumbnail: self.thumbnail.deep_view(),
            title: self.title.deep_view(),
            url: self.url.deep_view(),
        }
    }
}

impl DeepView for Embed {
    type V = EmbedView;

    open spec fn deep_view(&self) -> EmbedView {
        self@
    }
}

/// The embed without anything in it.
pub open spec fn blank_embed() -> EmbedView {
    EmbedView {
        author: None,
        color: None,
        description: None,
        fields: Seq::empty(),
        footer: None,
        image: None,
        thumbnail: None,
        title: None,
        url: None,
    }
}

impl Embed {
    /// An embed without anything in it.
    pub fn new() -> (embed: Self)
        ensures
            embed@ == blank_embed(),
    {
        let embed = Embed {
            author: None,
            color: None,
            description: None,
            fields: Vec::new(),
            footer: None,
            image: None,
            thumbnail: None,
            title: None,
            url: None,
        };
        assert(embed.fields.deep_view() == Seq::<EmbedFieldView>::empty());
        embed
    }

    /// The same embed, attributed to `author`.
    pub fn author(self, author: EmbedAuthor) -> (embed: Self)
        ensures
            embed@ == (EmbedView { author: Some(author.deep_view()), ..self@ }),
    {
        Embed { author: Some(author), ..self }
    }

    /// The same embed in another colour.
    pub fn color(self, color: u32) -> (embed: Self)
        ensures
            embed@ == (EmbedView { color: Some(color), ..self@ }),
    {
        Embed { color: Some(color), ..self }
    }

    /// The same embed with the given text.
    pub fn description(self, text: &str) -> (embed: Self)
        ensures
            embed@ == (EmbedView { description: Some(text@), ..self@ }),
    {
        Embed { description: Some(text.to_owned()), ..self }
    }

    /// The same embed with one more paragraph at its end.
    pub fn field(self, name: &str, value: &str, inline: bool) -> (embed: Self)
        ensures
            embed@ == (EmbedView {
                fields: self@.fields.push(EmbedFieldView { name: name@, value: value@, inline }),
                ..self@
            }),
    {
        let mut embed = self;
        let ghost before = embed.fields.deep_view();
        embed.fields.push(EmbedField { name: name.to_owned(), value: value.to_owned(), inline });
        assert(embed.fields.deep_view() == before.push(
            EmbedFieldView { name: name@, value: value@, inline },
        ));
        embed
    }

    /// The same embed with the given small print.
    pub fn footer(self, footer: EmbedFooter) -> (embed: Self)
        ensures
            embed@ == (EmbedView { footer: Some(footer.deep_view()), ..self@ }),
    {
        Embed { footer: Some(footer), ..self }
    }

    /// The same embed with a picture below its text.
    pub fn image(self, link: &str) -> (embed: Self)
        ensures
            embed@ == (EmbedView { image: Some(link@), ..self@ }),
    {
        Embed { image: Some(link.to_owned()), ..self }
    }

    /// The same embed with a small picture in its corner.
    pub fn thumbnail(self, link: &str) -> (embed: Self)
        ensures
            embed@ == (EmbedView { thumbnail: Some(link@), ..self@ }),
    {
        Embed { thumbnail: Some(link.to_owned()), ..self }
    }

    /// The same embed with the given title.
    pub fn title(self, text: &str) -> (embed: Self)
        ensures
            embed@ == (EmbedView { title: Some(text@), ..self@ }),
    {
        Embed { title: Some(text.to_owned()), ..self }
    }

    /// The same embed, whose title links to `link`.
    pub fn url(self, link: &str) -> (embed: Self)
        ensures
            embed@ == (EmbedView { url: Some(link@), ..self@ }),
    {
        Embed { url: Some(link.to_owned()), ..self }
    }
}

/// A message: an embed, the buttons below it, and whether only the user
/// who caused it sees it.
#[derive(Debug)]
pub struct Message {
    pub embed: Option<Embed>,
    pub buttons: Vec<Button>,
    pub ephemeral: bool,
}

/// The mathematical value of a [`Message`].
pub ghost struct MessageView {
    pub embed: Option<EmbedView>,
    pub buttons: Seq<ButtonView>,
    pub ephemeral: bool,
}

impl View for Message {
    type V = MessageView;

    open spec fn view(&self) -> MessageView {
        MessageView {
            embed: self.embed.deep_view(),
            buttons: self.buttons.deep_view(),
            ephemeral: self.ephemeral,
        }
    }
}

impl Message {
    /// A message for everybody, without anything in it.
    pub fn new() -> (message: Self)
        ensures
            message@ == (MessageView { embed: None, buttons: Seq::empty(), ephemeral: false }),
    {
        let message = Message { embed: None, buttons: Vec::new(), ephemeral: false };
        assert(message.buttons.deep_view() == Seq::<ButtonView>::empty());
        message
    }

    /// The same message with the given embed.
    pub fn embed(self, embed: Embed) -> (message: Self)
        ensures
            message@ == (MessageView { embed: Some(embed@), ..self@ }),
    {
        Message { embed: Some(embed), ..self }
    }

    /// The same message with the given buttons below it, in place of those
    /// it had.
    pub fn buttons(self, buttons: Vec<Button>) -> (message: Self)
        ensures
            message@ == (MessageView { buttons: buttons.deep_view(), ..self@ }),
    {
        Message { buttons, ..self }
    }

    /// The same message, for the eyes of one user or of everybody.
    pub fn ephemeral(self, ephemeral: bool) -> (message: Self)
        ensures
            message@ == (MessageView { ephemeral, ..self@ }),
    {
        Message { ephemeral, ..self }
    }
}

/// A user of the platform, as far as cards show them.
#[derive(Debug)]
pub struct UserProfile {
    pub id: u64,
    pub name: String,
    /// The name with its discriminator, if it has one.
    pub tag: String,
    /// The link to the user's picture.
    pub face: String,
    /// The link to the picture of users who chose none.
    pub default_avatar_url: String,
    /// The colour the user chose for their profile, as `0xRRGGBB`.
    pub accent_colour: Option<u32>,
    pub bot: bool,
}

impl UserProfile {
    /// The user as the author of an embed: their tag and their picture.
    pub open spec fn author_spec(&self) -> EmbedAuthorView {
        EmbedAuthorView { name: self.tag@, icon_url: Some(self.face@), url: None }
    }

    /// The user as the author of an embed: their tag and their picture.
    pub fn as_author(&self) -> (author: EmbedAuthor)
        ensures
            author.deep_view() == self.author_spec(),
    {
        EmbedAuthor::new(self.tag.as_str()).icon_url(self.face.as_str())
    }

    /// The colour of the user's cards: the one they chose for their
    /// profile, or the bot's.
    pub open spec fn colour_spec(&self) -> u32 {
        match self.accent_colour {
            Some(colour) => colour,
            None => BOT_COLOR,
        }
    }

    /// The colour of the user's cards.
    pub fn colour(&self) -> (colour: u32)
        ensures
            colour == self.colour_spec(),
    {
        match self.accent_colour {
            Some(colour) => colour,
            None => BOT_COLOR,
        }
    }
}

/// The colours of the platform's palette that the bot offers, as
/// `0xRRGGBB`.
pub const RED: u32 = 0xE74C3C;

pub const ORANGE: u32 = 0xE67E22;

pub const GOLD: u32 = 0xF1C40F;

pub const KERBAL: u32 = 0xBADA55;

pub const BLITZ_BLUE: u32 = 0x6FC6E2;

pub const BLUE: u32 = 0x3498DB;

pub const PURPLE: u32 = 0x9B59B6;

pub const FABLED_PINK: u32 = 0xFAB1ED;

pub const DARK_RED: u32 = 0x992D22;

pub const DARK_ORANGE: u32 = 0xA84300;

pub const DARK_GOLD: u32 = 0xC27C0E;

pub const DARK_GREEN: u32 = 0x1F8B4C;

pub const DARK_TEAL: u32 = 0x11806A;

pub const DARK_BLUE: u32 = 0x206694;

pub const DARK_PURPLE: u32 = 0x71368A;

pub const MEIBE_PINK: u32 = 0xE68397;

pub const LIGHTER_GREY: u32 = 0x95A5A6;

pub const LIGHT_GREY: u32 = 0x979C9F;

pub const DARK_GREY: u32 = 0x607D8B;

pub const DARKER_GREY: u32 = 0x546E7A;

/// The permission to send messages.
pub const SEND_MESSAGES: u64 = 0x800;

/// The permission to post links that unfold into embeds.
pub const EMBED_LINKS: u64 = 0x4000;

/// The permission to manage roles.
pub const MANAGE_ROLES: u64 = 0x1000_0000;

/// The permission to use application commands.
pub const USE_APPLICATION_COMMANDS: u64 = 0x8000_0000;

/// The permission to moderate members.
pub const MODERATE_MEMBERS: u64 = 0x100_0000_0000;

/// The type of a command's option.
#[derive(Clone, Copy, Debug, PartialEq, Eq, Structural)]
pub enum CommandOptionType {
    SubCommand,
    SubCommandGroup,
    String,
    Integer,
    Boolean,
    User,
    Channel,
    Role,
}

/// One option of a command as it is registered with the platform.
#[derive(Debug)]
pub struct OptionSchema {
    pub kind: CommandOptionType,
    pub name: String,
    pub description: String,
    pub required: bool,
    /// The longest text the option takes.
    pub max_length: Option<u16>,
    pub min_int_value: Option<i64>,
    pub max_int_value: Option<i64>,
    /// Whether a channel option offers text channels only.
    pub text_channels_only: bool,
    /// The numbers the user chooses from, each with its name.
    pub int_choices: Vec<(String, i32)>,
    /// The texts the user chooses from, each with its name.
    pub string_choices: Vec<(String, String)>,
    /// The options of a subcommand, or the subcommands of a group.
    pub options: Vec<OptionSchema>,
}

impl OptionSchema {
    /// Whether `self` is `before` with possibly other choices and
    /// sub-options.
    pub open spec fn same_head(&self, before: &OptionSchema) -> bool {
        &&& self.kind == before.kind
        &&& self.name == before.name
        &&& self.description == before.description
        &&& self.required == before.required
        &&& self.max_length == before.max_length
        &&& self.min_int_value == before.min_int_value
        &&& self.max_int_value == before.max_int_value
        &&& self.text_channels_only == before.text_channels_only
    }

    /// An optional option without limits, choices or sub-options.
    pub fn new(kind: CommandOptionType, name: &str, description: &str) -> (option: Self)
        ensures
            option.kind == kind,
            option.name@ == name@,
            option.description@ == description@,
            !option.required,
            option.max_length is None,
            option.min_int_value is None,
            option.max_int_value is None,
            !option.text_channels_only,
            option.int_choices@.len() == 0,
            option.string_choices@.len() == 0,
            option.options@.len() == 0,
    {
        OptionSchema {
            kind,
            name: name.to_owned(),
            description: description.to_owned(),
            required: false,
            max_length: None,
            min_int_value: None,
            max_int_value: None,
            text_channels_only: false,
            int_choices: Vec::new(),
            string_choices: Vec::new(),
            options: Vec::new(),
        }
    }

    /// The same option, mandatory or not.
    pub fn required(self, required: bool) -> (option: Self)
        ensures
            option == (OptionSchema { required, ..self }),
    {
        OptionSchema { required, ..self }
    }

    /// The same option with a limit on the length of its text.
    pub fn max_length(self, length: u16) -> (option: Self)
        ensures
            option == (OptionSchema { max_length: Some(length), ..self }),
    {
        OptionSchema { max_length: Some(length), ..self }
    }

    /// The same option with a least number.
    pub fn min_int_value(self, value: i64) -> (option: Self)
        ensures
            option == (OptionSchema { min_int_value: Some(value), ..self }),
    {
        OptionSchema { min_int_value: Some(value), ..self }
    }

    /// The same option with a greatest number.
    pub fn max_int_value(self, value: i64) -> (option: Self)
        ensures
            option == (OptionSchema { max_int_value: Some(value), ..self }),
    {
        OptionSchema { max_int_value: Some(value), ..self }
    }

    /// The same option, which offers text channels only.
    pub fn text_channels(self) -> (option: Self)
        ensures
            option == (OptionSchema { text_channels_only: true, ..self }),
    {
        OptionSchema { text_channels_only: true, ..self }
    }

    /// The same option with one more number to choose.
    pub fn add_int_choice(self, name: String, value: i32) -> (option: Self)
        ensures
            option.same_head(&self),
            option.int_choices@ == self.int_choices@.push((name, value)),
            option.string_choices == self.string_choices,
            option.options == self.options,
    {
        let mut option = self;
        option.int_choices.push((name, value));
        option
    }

    /// The same option with one more text to choose.
    pub fn add_string_choice(self, name: &str, value: String) -> (option: Self)
        ensures
            option.same_head(&self),
            option.int_choices == self.int_choices,
            option.string_choices@.len() == self.string_choices@.len() + 1,
            option.string_choices@.drop_last() == self.string_choices@,
            option.string_choices@.last().0@ == name@,
            option.string_choices@.last().1 == value,
            option.options == self.options,
    {
        let mut option = self;
        option.string_choices.push((name.to_owned(), value));
        assert(option.string_choices@.drop_last() == self.string_choices@);
        option
    }

    /// The same option with one more sub-option at its end.
    pub fn add_sub_option(self, sub: OptionSchema) -> (option: Self)
        ensures
            option.same_head(&self),
            option.int_choices == self.int_choices,
            option.string_choices == self.string_choices,
            option.options@ == self.options@.push(sub),
    {
        let mut option = self;
        option.options.push(sub);
        option
    }
}

/// A command as it is registered with the platform.
#[derive(Debug)]
pub struct CommandSchema {
    pub name: String,
    pub description: String,
    /// The permissions a member needs by default, as a set of bits.
    pub default_member_permissions: u64,
    /// Whether the command can be used in direct messages.
    pub dm_permission: bool,
    pub options: Vec<OptionSchema>,
}

/// The names of the first `upto` options of a list.
pub open spec fn option_names(options: Seq<OptionSchema>, upto: int) -> Seq<Seq<char>> {
    Seq::new(upto as nat, |i: int| options[i].name@)
}

impl CommandSchema {
    /// A command without description, permissions or options, usable in
    /// direct messages.
    pub fn new(name: &str) -> (command: Self)
        ensures
            command.name@ == name@,
            command.description@ == Seq::<char>::empty(),
            command.default_member_permissions == 0,
            command.dm_permission,
            command.options@.len() == 0,
    {
        CommandSchema {
            name: name.to_owned(),
            description: String::new(),
            default_member_permissions: 0,
            dm_permission: true,
            options: Vec::new(),
        }
    }

    /// The same command with the permissions a member needs by default.
    pub fn default_member_permissions(self, permissions: u64) -> (command: Self)
        ensures
            command == (CommandSchema { default_member_permissions: permissions, ..self }),
    {
        CommandSchema { default_member_permissions: permissions, ..self }
    }

    /// The same command with the given description.
    pub fn description(self, description: &str) -> (command: Self)
        ensures
            command.name == self.name,
            command.description@ == description@,
            command.default_member_permissions == self.default_member_permissions,
            command.dm_permission == self.dm_permission,
            command.options == self.options,
    {
        CommandSchema { description: description.to_owned(), ..self }
    }

    /// The same command, usable in direct messages or not.
    pub fn dm_permission(self, enabled: bool) -> (command: Self)
        ensures
            command == (CommandSchema { dm_permission: enabled, ..self }),
    {
        CommandSchema { dm_permission: enabled, ..self }
    }

    /// The same command with one more option at its end.
    pub fn add_option(self, option: OptionSchema) -> (command: Self)
        ensures
            command.name == self.name,
            command.description == self.description,
            command.default_member_permissions == self.default_member_permissions,
            command.dm_permission == self.dm_permission,
            command.options@ == self.options@.push(option),
    {
        let mut command = self;
        command.options.push(option);
        command
    }

    /// The names of the command's options, in their order.
    pub open spec fn option_names(&self) -> Seq<Seq<char>> {
        option_names(self.options@, self.options@.len() as int)
    }
}

} // verus!
