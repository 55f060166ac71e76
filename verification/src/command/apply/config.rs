//! How a guild takes applications: the questions it asks, where the
//! applications are posted, and the role that an accepted member gets.

use vstd::prelude::*;
use vstd::string::*;

use crate::command::apply::NAME;
use crate::utility::anchor::anchor_or_missing;
use crate::utility::anchor::Anchor;
use crate::utility::anchor::Anchored;
use crate::utility::platform::blank_embed;
use crate::utility::platform::Button;
use crate::utility::platform::Embed;
use crate::utility::platform::EmbedAuthor;
use crate::utility::platform::EmbedAuthorView;
use crate::utility::platform::EmbedFooter;
use crate::utility::platform::EmbedFooterView;
use crate::utility::platform::EmbedView;
use crate::utility::BOT_COLOR;
use crate::utility::platform::ButtonStyle;
use crate::utility::platform::ButtonView;
use crate::utility::platform::EmojiView;
use crate::utility::platform::InputTextStyle;
use crate::utility::platform::Modal;
use crate::utility::platform::ModalView;
use crate::utility::platform::TextInput;
use crate::utility::platform::TextInputView;
use crate::utility::req::AsReq;
use crate::utility::req::NewReq;
use crate::utility::req::Req;
use crate::utility::req::ReqView;
use crate::utility::req::TryAsReq;
use crate::utility::text::decimal;
use crate::utility::text::decimal_seq;
use crate::utility::text::lemma_decimal_injective;
use crate::utility::text::push_char;
use crate::utility::Error;
use crate::utility::ErrorView;
use crate::utility::Result;
use crate::utility::Value;

use crate::utility::traits::AsButtonVec;
use crate::utility::traits::AsModal;

verus! {

/// The button that opens the application.
pub const BUTTON_MODAL: &'static str = "apply_modal";

/// The button that explains applications.
pub const BUTTON_ABOUT: &'static str = "apply_about";

/// The modal in which a member applies.
pub const MODAL_SUBMIT: &'static str = "apply_submit";

/// How many questions an application can ask.
pub const MAX_QUESTIONS: usize = 5;

/// What the guild's card says, and what the application asks.
#[derive(Clone, Debug)]
pub struct Content {
    pub title: String,
    pub description: String,
    pub thumbnail: String,
    pub questions: Vec<String>,
}

/// The mathematical value of a [`Content`].
pub ghost struct ContentView {
    pub title: Seq<char>,
    pub description: Seq<char>,
    pub thumbnail: Seq<char>,
    pub questions: Seq<Seq<char>>,
}

impl View for Content {
    type V = ContentView;

    open spec fn view(&self) -> ContentView {
        ContentView {
            title: self.title@,
            description: self.description@,
            thumbnail: self.thumbnail@,
            questions: self.questions.deep_view(),
        }
    }
}

impl Content {
    /// What the guild's card says, with the questions of the application.
    pub fn new(title: String, description: String, thumbnail: String, questions: Vec<String>) -> (content:
        Self)
        ensures
            content == (Content { title, description, thumbnail, questions }),
    {
        Content { title, description, thumbnail, questions }
    }
}

/// A guild's settings for applications.
#[derive(Clone, Debug)]
pub struct Config {
    /// The channel in which applications are posted.
    pub channel: u64,
    /// The role of accepted members.
    pub role: u64,
    pub content: Content,
    /// The guild's card, once it is posted.
    pub anchor: Option<Anchor>,
}

/// What a moderator changes in the settings; fields left out stay as they
/// are.
#[derive(Debug)]
pub struct ConfigChange {
    pub title: Option<String>,
    pub description: Option<String>,
    pub thumbnail: Option<String>,
    /// New wordings of questions, by position. A list shorter than the
    /// questions leaves the others as they are.
    pub questions: Vec<Option<String>>,
    pub channel: Option<u64>,
    pub role: Option<u64>,
}

/// What follows from posting the guild's card.
#[derive(Debug)]
pub struct Posted {
    /// The key under which the settings are stored.
    pub req: Req<Config>,
    /// The card from an earlier posting, which is to be deleted.
    pub stale: Option<Anchor>,
}

/// The key of the settings of `guild`.
pub open spec fn config_req(guild: u64) -> ReqView {
    ReqView { dir: NAME@ + seq!['/'] + decimal_seq(guild as nat), key: ".cfg"@ }
}

/// Different guilds never share a key.
pub proof fn lemma_config_req_injective(guild_a: u64, guild_b: u64)
    requires
        config_req(guild_a) == config_req(guild_b),
    ensures
        guild_a == guild_b,
{
    let prefix = NAME@ + seq!['/'];
    let a = decimal_seq(guild_a as nat);
    let b = decimal_seq(guild_b as nat);
    assert((prefix + a).skip(prefix.len() as int) == a);
    assert((prefix + b).skip(prefix.len() as int) == b);
    lemma_decimal_injective(guild_a as nat, guild_b as nat);
}

/// The text fields of the first `upto` questions: one for each, named by
/// the question's position.
pub open spec fn question_fields(questions: Seq<Seq<char>>, upto: int) -> Seq<TextInputView>
    decreases upto,
{
    if upto <= 0 {
        Seq::empty()
    } else {
        question_fields(questions, upto - 1).push(
            TextInputView {
                custom_id: decimal_seq((upto - 1) as nat),
                label: questions[upto - 1],
                style: InputTextStyle::Paragraph,
                max_length: Some(1024u16),
                required: true,
                placeholder: None,
            },
        )
    }
}

/// The questions after a change: each position for which the change has a
/// new wording takes it.
pub open spec fn changed_questions(questions: Seq<String>, change: Seq<Option<String>>) -> Seq<
    String,
> {
    Seq::new(
        questions.len(),
        |i: int|
            if i < change.len() && change[i] is Some {
                change[i].unwrap()
            } else {
                questions[i]
            },
    )
}

impl Config {
    /// Settings that were never posted.
    pub fn new(channel: u64, role: u64, content: Content) -> (config: Self)
        ensures
            config == (Config { channel, role, content, anchor: None }),
    {
        Config { channel, role, content, anchor: None }
    }

    /// Whether the change touches what the guild's card shows, so that
    /// the card is to be posted again.
    pub open spec fn touches_card(change: ConfigChange) -> bool {
        ||| change.title is Some
        ||| change.description is Some
        ||| change.thumbnail is Some
        ||| exists|i: int| 0 <= i < change.questions.len() && (#[trigger] change.questions[i]) is Some
    }

    /// Changes the settings. The result says whether the change touches
    /// what the guild's card shows: the card is then to be posted again,
    /// and otherwise the settings are only stored.
    #[verifier::loop_isolation(false)]
    pub fn modify(&mut self, change: ConfigChange) -> (resend: bool)
        requires
            forall|i: int|
                0 <= i < change.questions.len() && (#[trigger] change.questions[i]) is Some ==> i
                    < old(self).content.questions.len(),
        ensures
            resend == Self::touches_card(change),
            final(self).content.title == (match change.title {
                Some(title) => title,
                None => old(self).content.title,
            }),
            final(self).content.description == (match change.description {
                Some(description) => description,
                None => old(self).content.description,
            }),
            final(self).content.thumbnail == (match change.thumbnail {
                Some(thumbnail) => thumbnail,
                None => old(self).content.thumbnail,
            }),
            final(self).content.questions@ == changed_questions(
                old(self).content.questions@,
                change.questions@,
            ),
            final(self).channel == (match change.channel {
                Some(channel) => channel,
                None => old(self).channel,
            }),
            final(self).role == (match change.role {
                Some(role) => role,
                None => old(self).role,
            }),
            final(self).anchor == old(self).anchor,
    {
        let ConfigChange { title, description, thumbnail, questions, channel, role } = change;
        let mut resend = false;
        if let Some(title) = title {
            self.content.title = title;
            resend = true;
        }
        if let Some(description) = description {
            self.content.description = description;
            resend = true;
        }
        if let Some(thumbnail) = thumbnail {
            self.content.thumbnail = thumbnail;
            resend = true;
        }
        let ghost before = self.content.questions@;
        let ghost wanted = questions@;
        let ghost early = resend;
        let ghost mid = *self;
        let mut questions = questions;
        let mut index: usize = questions.len();
        while index > 0
            invariant
                index <= wanted.len(),
                questions@ == wanted.take(index as int),
                self.content.questions.len() == before.len(),
                forall|i: int|
                    0 <= i < wanted.len() && (#[trigger] wanted[i]) is Some ==> i < before.len(),
                forall|i: int|
                    0 <= i < before.len() ==> (#[trigger] self.content.questions@[i]) == (if index
                        <= i < wanted.len() && wanted[i] is Some {
                        wanted[i].unwrap()
                    } else {
                        before[i]
                    }),
                resend == (early || exists|i: int|
                    index <= i < wanted.len() && (#[trigger] wanted[i]) is Some),
                self.content.title == mid.content.title,
                self.content.description == mid.content.description,
                self.content.thumbnail == mid.content.thumbnail,
                self.channel == mid.channel,
                self.role == mid.role,
                self.anchor == mid.anchor,
            decreases index,
        {
            let ghost above = index;
            let ghost held = self.content.questions@;
            index -= 1;
            assert(wanted.take(above as int).last() == wanted[index as int]);
            let wording = questions.pop().unwrap();
            assert(questions@ == wanted.take(index as int));
            if let Some(text) = wording {
                self.content.questions[index] = text;
                resend = true;
            }
            proof {
                if wanted[index as int] is Some {
                    assert(exists|i: int|
                        index <= i < wanted.len() && (#[trigger] wanted[i]) is Some);
                } else if resend && !early {
                    let i = choose|i: int| above <= i < wanted.len() && (#[trigger] wanted[i]) is Some;
                    assert(index <= i < wanted.len() && wanted[i] is Some);
                }
            }
        }
        if let Some(channel) = channel {
            self.channel = channel;
        }
        if let Some(role) = role {
            self.role = role;
        }
        assert(self.content.questions@ =~= changed_questions(before, wanted));
        resend
    }

    /// Records that the guild's card was posted as `message` in `channel`
    /// of `guild`. The result holds the key under which to store the
    /// settings, and the card that this one replaces.
    pub fn send(&mut self, guild: u64, channel: u64, message: u64) -> (posted: Posted)
        ensures
            *final(self) == (Config {
                anchor: Some(Anchor { guild, channel, message }),
                ..*old(self)
            }),
            posted.req@ == config_req(guild),
            posted.stale == old(self).anchor,
    {
        let stale = self.anchor;
        self.anchor = Some(Anchor::new(guild, channel, message));
        Posted { req: <Config as NewReq<u64>>::new_req(guild), stale }
    }

    /// The guild's card: what the settings say of applications, under the
    /// guild's name, with the number of questions in small print.
    pub fn as_embed(&self, guild: &str, icon: Option<&str>) -> (embed: Embed)
        ensures
            embed@ == (EmbedView {
                author: Some(
                    EmbedAuthorView { name: guild@, icon_url: icon.deep_view(), url: None },
                ),
                color: Some(BOT_COLOR),
                description: Some(self.content.description@),
                footer: Some(
                    EmbedFooterView {
                        text: "Questions: "@ + decimal_seq(self.content.questions.len() as nat),
                        icon_url: None,
                    },
                ),
                thumbnail: Some(self.content.thumbnail@),
                title: Some(self.content.title@),
                ..blank_embed()
            }),
    {
        let mut note = String::from_str("Questions: ");
        note.append(decimal(self.content.questions.len() as u64).as_str());
        let author = EmbedAuthor::new(guild);
        let author = match icon {
            Some(link) => author.icon_url(link),
            None => author,
        };
        Embed::new().author(author).color(BOT_COLOR).description(
            self.content.description.as_str(),
        ).footer(EmbedFooter::new(note.as_str())).thumbnail(
            self.content.thumbnail.as_str(),
        ).title(self.content.title.as_str())
    }

    /// The buttons of the guild's card.
    pub open spec fn buttons(disabled: bool) -> Seq<ButtonView> {
        seq![
            ButtonView {
                custom_id: BUTTON_MODAL@,
                disabled,
                emoji: Some(EmojiView::Unicode(seq!['👋'])),
                label: Some("Apply to Guild"@),
                style: ButtonStyle::Primary,
            },
            ButtonView {
                custom_id: BUTTON_ABOUT@,
                disabled,
                emoji: Some(EmojiView::Unicode(seq!['ℹ'])),
                label: Some("About Applications"@),
                style: ButtonStyle::Secondary,
            },
        ]
    }


    /// The modal in which a member applies.
    pub open spec fn modal(&self) -> ModalView {
        ModalView {
            custom_id: MODAL_SUBMIT@,
            title: "Apply to Guild"@,
            inputs: question_fields(
                self.content.questions.deep_view(),
                self.content.questions.len() as int,
            ),
        }
    }

}

impl Anchored for Config {
    open spec fn anchor_spec(&self) -> Option<Anchor> {
        self.anchor
    }

    fn anchor(&self) -> (r: Result<Anchor>) {
        anchor_or_missing(self.anchor)
    }
}

impl NewReq<u64> for Config {
    open spec fn req_spec(guild: u64) -> ReqView {
        config_req(guild)
    }

    /// The key of the settings of `guild`.
    fn new_req(guild: u64) -> (req: Req<Self>) {
        let mut dir = String::from_str(NAME);
        let ghost name = dir@;
        push_char(&mut dir, '/');
        assert(dir@ == name + seq!['/']);
        dir.append(decimal(guild).as_str());
        Req::new(dir.as_str(), ".cfg")
    }
}

impl TryAsReq<()> for Config {
    open spec fn try_as_req_spec(&self, args: ()) -> core::result::Result<ReqView, ErrorView> {
        match self.anchor {
            Some(anchor) => Ok(config_req(anchor.guild)),
            None => Err(ErrorView::MissingValue(Value::Anchor)),
        }
    }

    /// The settings' own key, which is known once the card is posted.
    fn try_as_req(&self, args: ()) -> (r: Result<Req<Self>>) {
        match self.anchor {
            Some(anchor) => Ok(<Config as NewReq<u64>>::new_req(anchor.guild)),
            None => Err(Error::MissingValue(Value::Anchor)),
        }
    }
}

impl AsReq<u64> for Config {
    open spec fn as_req_spec(&self, guild: u64) -> ReqView {
        config_req(guild)
    }

    fn as_req(&self, guild: u64) -> (req: Req<Self>) {
        <Config as NewReq<u64>>::new_req(guild)
    }
}

impl AsButtonVec<()> for Config {
    open spec fn buttons_view(&self, disabled: bool, args: ()) -> Seq<ButtonView> {
        Config::buttons(disabled)
    }

    /// The two buttons of the guild's card: one opens the application, the
    /// other explains applications.
    fn as_buttons(&self, disabled: bool, args: ()) -> (buttons: Vec<Button>) {
        let modal = Button::new(String::from_str(BUTTON_MODAL)).disabled(disabled).emoji(
            '👋',
        ).label("Apply to Guild").style(ButtonStyle::Primary);
        let about = Button::new(String::from_str(BUTTON_ABOUT)).disabled(disabled).emoji(
            'ℹ',
        ).label("About Applications").style(ButtonStyle::Secondary);
        let mut buttons: Vec<Button> = Vec::new();
        buttons.push(modal);
        buttons.push(about);
        assert(buttons.deep_view() == Config::buttons(disabled));
        buttons
    }
}

impl AsModal<()> for Config {
    open spec fn modal_view(&self, args: ()) -> ModalView {
        self.modal()
    }

    /// The modal in which a member applies: one text field for each
    /// question, named by the question's position.
    fn as_modal(&self, args: ()) -> (modal: Modal) {
        let mut inputs: Vec<TextInput> = Vec::new();
        let mut index: usize = 0;
        assert(inputs.deep_view() == Seq::<TextInputView>::empty());
        while index < self.content.questions.len()
            invariant
                index <= self.content.questions.len(),
                inputs.deep_view() == question_fields(
                    self.content.questions.deep_view(),
                    index as int,
                ),
            decreases self.content.questions.len() - index,
        {
            let ghost before = inputs.deep_view();
            let input = TextInput::new(
                InputTextStyle::Paragraph,
                self.content.questions[index].as_str(),
                decimal(index as u64),
            ).max_length(1024).required(true);
            let ghost view = input@;
            inputs.push(input);
            assert(inputs.deep_view() == before.push(view));
            index += 1;
        }
        Modal {
            custom_id: String::from_str(MODAL_SUBMIT),
            title: String::from_str("Apply to Guild"),
            inputs,
        }
    }
}

} // verus!
