//! A member's application to a guild, and the rules of its life: it is
//! submitted as pending, a moderator accepts or denies it or asks for it to
//! be sent again, and only an application that was sent back can be
//! replaced by a new one.

use vstd::prelude::*;
use vstd::string::*;

use crate::command::apply::NAME;
use crate::utility::anchor::anchor_or_missing;
use crate::utility::anchor::Anchor;
use crate::utility::anchor::Anchored;
use crate::utility::clock::created_millis;
use crate::utility::clock::now_millis;
use crate::utility::custom_id::encode;
use crate::utility::custom_id::CustomId;
use crate::utility::formatting::TimeFlag;
use crate::utility::formatting::TimeString;
use crate::command::apply::config::Config;
use crate::utility::chance::random_index;
use crate::utility::platform::blank_embed;
use crate::utility::platform::Button;
use crate::utility::platform::Embed;
use crate::utility::platform::EmbedAuthor;
use crate::utility::platform::EmbedAuthorView;
use crate::utility::platform::EmbedFieldView;
use crate::utility::platform::EmbedView;
use crate::utility::platform::UserProfile;
use crate::utility::BOT_COLOR;
use crate::utility::platform::ButtonStyle;
use crate::utility::platform::ButtonView;
use crate::utility::platform::EmojiView;
use crate::utility::platform::InputTextStyle;
use crate::utility::platform::Modal;
use crate::utility::platform::ModalView;
use crate::utility::platform::TextInput;
use crate::utility::platform::TextInputView;
use crate::utility::req::AsReq;
use crate::utility::req::NewReq;
use crate::utility::req::Req;
use crate::utility::req::ReqView;
use crate::utility::req::TryAsReq;
use crate::utility::text::decimal;
use crate::utility::text::decimal_seq;
use crate::utility::req::lemma_path_injective;
use crate::utility::text::is_digit;
use crate::utility::text::lemma_decimal_injective;
use crate::utility::text::lemma_decimal_value;
use crate::utility::text::push_char;
use crate::utility::text::signed_decimal;
use crate::utility::text::signed_decimal_seq;
use crate::utility::Category;
use crate::utility::Error;
use crate::utility::ErrorView;
use crate::utility::Result;
use crate::utility::Value;

use crate::utility::traits::AsButtonVec;
use crate::utility::traits::AsModal;

verus! {

/// The name of the field that holds the reason of an update.
pub const OPTION_REASON: &'static str = "reason";

pub const BUTTON_ACCEPT: &'static str = "apply_accept";

pub const BUTTON_DENY: &'static str = "apply_deny";

pub const BUTTON_RESEND: &'static str = "apply_resend";

pub const MODAL_UPDATE: &'static str = "apply_update";

/// How many greetings [`toast`] knows.
pub const TOAST_COUNT: usize = 8;

/// One of the greetings that head an application's card.
pub open spec fn toast_spec(index: int) -> &'static str {
    if index == 0 {
        "I spot a new member!"
    } else if index == 1 {
        "A wild user appeared!"
    } else if index == 2 {
        "Oh god, there's *another* one..."
    } else if index == 3 {
        "This one seems... suspicious..."
    } else if index == 4 {
        "Careful, they might bite!"
    } else if index == 5 {
        "I'd keep an eye on this one."
    } else if index == 6 {
        "Aww, they didn't bring pizza!"
    } else {
        "Who let *this* guy in..?"
    }
}

/// One of the greetings that head an application's card.
pub fn toast(index: usize) -> (text: &'static str)
    requires
        index < TOAST_COUNT,
    ensures
        text == toast_spec(index as int),
{
    match index {
        0 => "I spot a new member!",
        1 => "A wild user appeared!",
        2 => "Oh god, there's *another* one...",
        3 => "This one seems... suspicious...",
        4 => "Careful, they might bite!",
        5 => "I'd keep an eye on this one.",
        6 => "Aww, they didn't bring pizza!",
        _ => "Who let *this* guy in..?",
    }
}

/// Where an application stands.
#[derive(Clone, Copy, Debug, PartialEq, Eq, Structural)]
pub enum Status {
    /// Submitted and waiting for a moderator.
    Pending,
    /// Accepted: the member holds the guild's role.
    Accepted,
    /// Denied.
    Denied,
    /// Sent back: the member may apply again.
    Resend,
}

impl Status {
    /// The number under which the status travels in identifiers and
    /// options.
    pub open spec fn ordinal_spec(self) -> u8 {
        match self {
            Status::Pending => 0,
            Status::Accepted => 1,
            Status::Denied => 2,
            Status::Resend => 3,
        }
    }

    /// The number under which the status travels in identifiers and
    /// options.
    pub fn ordinal(self) -> (n: u8)
        ensures
            n == self.ordinal_spec(),
    {
        match self {
            Status::Pending => 0,
            Status::Accepted => 1,
            Status::Denied => 2,
            Status::Resend => 3,
        }
    }

    /// The status with the given number.
    pub open spec fn from_ordinal(value: int) -> Option<Status> {
        if value == 0 {
            Some(Status::Pending)
        } else if value == 1 {
            Some(Status::Accepted)
        } else if value == 2 {
            Some(Status::Denied)
        } else if value == 3 {
            Some(Status::Resend)
        } else {
            None
        }
    }

    /// The status with the given number; any other number is reported as
    /// an invalid value, in decimal notation.
    pub fn try_from(value: i64) -> (r: Result<Status>)
        ensures
            match Status::from_ordinal(value as int) {
                Some(status) => r == Ok::<Status, Error>(status),
                None => r matches Err(e) && e@ == ErrorView::InvalidValue(
                    Value::Data,
                    signed_decimal_seq(value as int),
                ),
            },
    {
        match value {
            0 => Ok(Status::Pending),
            1 => Ok(Status::Accepted),
            2 => Ok(Status::Denied),
            3 => Ok(Status::Resend),
            _ => Err(Error::InvalidValue(Value::Data, signed_decimal(value))),
        }
    }

    /// A moderator's final word: accepted or denied. Such an application is
    /// changed again only on request.
    pub open spec fn is_terminal(self) -> bool {
        self == Status::Accepted || self == Status::Denied
    }

    /// The status as cards show it.
    pub open spec fn label(self) -> Seq<char> {
        match self {
            Status::Pending => "🤔 Pending"@,
            Status::Accepted => "👍 Accepted"@,
            Status::Denied => "👎 Denied"@,
            Status::Resend => "🤷 Resend"@,
        }
    }

    /// The status as cards show it.
    pub fn to_string(&self) -> (s: String)
        ensures
            s@ == self.label(),
    {
        match self {
            Status::Pending => String::from_str("🤔 Pending"),
            Status::Accepted => String::from_str("👍 Accepted"),
            Status::Denied => String::from_str("👎 Denied"),
            Status::Resend => String::from_str("🤷 Resend"),
        }
    }
}

/// An application.
#[derive(Clone, Debug)]
pub struct Form {
    /// The applicant.
    pub user: u64,
    pub status: Status,
    /// What the moderator said when the status last changed.
    pub reason: Option<String>,
    /// The answers, in the order of the questions.
    pub answers: Vec<String>,
    /// The card of the application, once it is posted.
    pub anchor: Option<Anchor>,
}

/// What follows from a change of status.
#[derive(Debug)]
pub struct Update {
    /// The key under which the changed application is stored.
    pub req: Req<Form>,
    /// Whether the applicant gets the guild's role; it is taken away
    /// otherwise.
    pub grant_role: bool,
    /// Whether the card's buttons are switched off.
    pub disable_buttons: bool,
    /// The card to edit.
    pub card: Anchor,
}

/// What the removal of an application asks for. It says nothing of roles:
/// removing an application is not denying it, and whoever removes one
/// decides what becomes of the applicant's role.
#[derive(Debug)]
pub struct Removal {
    /// The key of the record, which is to be removed.
    pub req: Req<Form>,
    /// The card, which is to be deleted.
    pub card: Anchor,
}

/// The note sent to the applicant after a change of status.
#[derive(Debug)]
pub struct Notice {
    pub status: Status,
    pub title: &'static str,
}

/// A guild as the author of an embed: its name, and its icon if it has one.
pub open spec fn guild_author(name: Seq<char>, icon: Option<Seq<char>>) -> EmbedAuthorView {
    EmbedAuthorView { name, icon_url: icon, url: None }
}

/// A guild as the author of an embed.
pub fn as_guild_author(name: &str, icon: Option<&str>) -> (author: EmbedAuthor)
    ensures
        author.deep_view() == guild_author(name@, icon.deep_view()),
{
    let author = EmbedAuthor::new(name);
    match icon {
        Some(link) => author.icon_url(link),
        None => author,
    }
}

impl Notice {
    /// The note to the applicant: the text `body`, and the moderator's
    /// reason as a quotation if there is one, under the guild's name.
    pub fn as_embed(&self, guild: &str, icon: Option<&str>, body: &str, reason: Option<&str>) -> (embed:
        Embed)
        ensures
            embed@ == (EmbedView {
                author: Some(guild_author(guild@, icon.deep_view())),
                color: Some(BOT_COLOR),
                description: Some(
                    match reason {
                        Some(reason) => body@ + "\n\n> "@ + reason@,
                        None => body@,
                    },
                ),
                title: Some(self.title@),
                ..blank_embed()
            }),
    {
        let mut description = String::from_str(body);
        match reason {
            Some(reason) => {
                description.append("\n\n> ");
                description.append(reason);
            },
            None => {},
        }
        Embed::new().author(as_guild_author(guild, icon)).color(BOT_COLOR).description(
            description.as_str(),
        ).title(self.title)
    }
}

/// The paragraphs of an application's card for the first `upto` questions:
/// each question with the answer as a quotation, or `N/A` without one.
pub open spec fn answer_fields(questions: Seq<String>, answers: Seq<String>, upto: int) -> Seq<
    EmbedFieldView,
>
    decreases upto,
{
    if upto <= 0 {
        Seq::empty()
    } else {
        answer_fields(questions, answers, upto - 1).push(
            EmbedFieldView {
                name: questions[upto - 1]@,
                value: if upto - 1 < answers.len() {
                    "> "@ + answers[upto - 1]@
                } else {
                    "N/A"@
                },
                inline: false,
            },
        )
    }
}

/// Whether a new application may replace `existing`: there is none, or it
/// was sent back.
pub open spec fn may_submit(existing: Option<Status>) -> bool {
    existing is None || existing == Some(Status::Resend)
}

/// Why a new application is refused while one of the given status exists.
pub open spec fn refusal(existing: Status) -> &'static str {
    match existing {
        Status::Pending => "Your application is pending",
        Status::Accepted => "Your application was accepted",
        Status::Denied => "Your application was denied",
        Status::Resend => "",
    }
}

/// The status of a stored application, if one is stored.
pub open spec fn status_of(existing: Option<&Form>) -> Option<Status> {
    match existing {
        Some(form) => Some(form.status),
        None => None,
    }
}

/// The key of the application of `user` in `guild`.
pub open spec fn form_req(guild: u64, user: u64) -> ReqView {
    ReqView { dir: NAME@ + seq!['/'] + decimal_seq(guild as nat), key: decimal_seq(user as nat) }
}

/// Different applicants, or different guilds, never share a file.
pub proof fn lemma_form_path_injective(guild_a: u64, user_a: u64, guild_b: u64, user_b: u64)
    requires
        form_req(guild_a, user_a).path() == form_req(guild_b, user_b).path(),
    ensures
        guild_a == guild_b,
        user_a == user_b,
{
    lemma_decimal_value(user_a as nat);
    lemma_decimal_value(user_b as nat);
    let a = decimal_seq(user_a as nat);
    let b = decimal_seq(user_b as nat);
    assert forall|i: int| 0 <= i < a.len() implies a[i] != '/' by {
        assert(is_digit(a[i]));
    }
    assert forall|i: int| 0 <= i < b.len() implies b[i] != '/' by {
        assert(is_digit(b[i]));
    }
    lemma_path_injective(
        form_req(guild_a, user_a),
        form_req(guild_b, user_b),
    );
    lemma_form_req_injective(guild_a, user_a, guild_b, user_b);
}

/// Different applicants, or different guilds, never share a key.
pub proof fn lemma_form_req_injective(guild_a: u64, user_a: u64, guild_b: u64, user_b: u64)
    requires
        form_req(guild_a, user_a) == form_req(guild_b, user_b),
    ensures
        guild_a == guild_b,
        user_a == user_b,
{
    let prefix = NAME@ + seq!['/'];
    let a = decimal_seq(guild_a as nat);
    let b = decimal_seq(guild_b as nat);
    assert((prefix + a).skip(prefix.len() as int) == a);
    assert((prefix + b).skip(prefix.len() as int) == b);
    lemma_decimal_injective(guild_a as nat, guild_b as nat);
    lemma_decimal_injective(user_a as nat, user_b as nat);
}

impl Form {
    /// A pending application of `user`, not yet posted.
    pub fn new(user: u64, answers: Vec<String>) -> (form: Self)
        ensures
            form == (Form { user, status: Status::Pending, reason: None, answers, anchor: None }),
    {
        Form { user, status: Status::Pending, reason: None, answers, anchor: None }
    }

    /// Whether the anchor, if any, is one that the platform issued.
    pub open spec fn wf(&self) -> bool {
        self.anchor matches Some(anchor) ==> anchor.wf()
    }

    /// Whether the applicant may apply, given the application that is
    /// stored for them, if any. An application that is pending, accepted or
    /// denied stands in the way; one that was sent back does not.
    pub fn check_submit(existing: Option<&Form>) -> (r: Result<()>)
        ensures
            may_submit(status_of(existing)) ==> r == Ok::<(), Error>(()),
            !may_submit(status_of(existing)) ==> r == Err::<(), Error>(
                Error::Other(refusal(existing.unwrap().status)),
            ),
    {
        match existing {
            None => Ok(()),
            Some(form) => match form.status {
                Status::Pending => Err(Error::Other("Your application is pending")),
                Status::Accepted => Err(Error::Other("Your application was accepted")),
                Status::Denied => Err(Error::Other("Your application was denied")),
                Status::Resend => Ok(()),
            },
        }
    }

    /// Submits an application of `user`. It is refused while an earlier one
    /// is pending, accepted or denied; otherwise the new application is
    /// pending, carries the answers, and is not yet posted.
    pub fn submit(existing: Option<&Form>, user: u64, answers: Vec<String>) -> (r: Result<Form>)
        ensures
            may_submit(status_of(existing)) ==> r == Ok::<Form, Error>(
                Form { user, status: Status::Pending, reason: None, answers, anchor: None },
            ),
            !may_submit(status_of(existing)) ==> r == Err::<Form, Error>(
                Error::Other(refusal(existing.unwrap().status)),
            ),
    {
        match Self::check_submit(existing) {
            Ok(()) => Ok(Self::new(user, answers)),
            Err(e) => Err(e),
        }
    }

    /// Records that the application's card was posted as `message` in
    /// `channel` of `guild`, and gives the key under which to store it.
    pub fn send(&mut self, guild: u64, channel: u64, message: u64) -> (req: Req<Form>)
        ensures
            *final(self) == (Form {
                anchor: Some(Anchor { guild, channel, message }),
                ..*old(self)
            }),
            req@ == form_req(guild, old(self).user),
    {
        self.anchor = Some(Anchor::new(guild, channel, message));
        <Form as NewReq<(u64, u64)>>::new_req((guild, self.user))
    }

    /// When the application was received: when its card was posted, or
    /// now if it has none.
    pub fn created_string(&self) -> (time: TimeString)
        requires
            self.wf(),
        ensures
            time.1 == Some(TimeFlag::Relative),
            self.anchor matches Some(anchor) ==> time.0 == created_millis(anchor.message),
            exists|now: i64| time == self.received(now),
    {
        let now = now_millis();
        let time = self.created_string_at(now);
        assert(time == self.received(now));
        time
    }

    /// When the application was received, `now` being the current time:
    /// when its card was posted, or now if it has none.
    pub fn created_string_at(&self, now: i64) -> (time: TimeString)
        requires
            self.wf(),
        ensures
            time == TimeString(
                match self.anchor {
                    Some(anchor) => created_millis(anchor.message) as i64,
                    None => now,
                },
                Some(TimeFlag::Relative),
            ),
            self.anchor matches Some(anchor) ==> time.0 == created_millis(anchor.message),
    {
        let ms = match self.anchor {
            Some(anchor) => anchor.created_at(),
            None => now,
        };
        TimeString::new(ms).flag(TimeFlag::Relative)
    }

    /// The text of the application's card.
    pub open spec fn card_text(&self, received: TimeString) -> Seq<char> {
        "**Profile:** <@"@ + decimal_seq(self.user as nat) + ">\n"@ + "**Received:** "@
            + received.markup() + "\n"@ + "**Status:** "@ + self.status.label() + "\n"@ + (
        match self.reason {
            Some(reason) => "**Reason:** "@ + reason@,
            None => Seq::empty(),
        })
    }

    /// The application's card under the greeting at position `pick`.
    pub open spec fn card(
        &self,
        config: &Config,
        user: &UserProfile,
        pick: int,
        received: TimeString,
    ) -> EmbedView {
        EmbedView {
            author: Some(user.author_spec()),
            color: Some(user.colour_spec()),
            description: Some(self.card_text(received)),
            fields: answer_fields(
                config.content.questions@,
                self.answers@,
                config.content.questions.len() as int,
            ),
            thumbnail: Some(user.face@),
            title: Some(toast_spec(pick)@),
            ..blank_embed()
        }
    }

    /// When the application was received if the present moment is `now`.
    pub open spec fn received(&self, now: i64) -> TimeString {
        TimeString(
            match self.anchor {
                Some(anchor) => created_millis(anchor.message) as i64,
                None => now,
            },
            Some(TimeFlag::Relative),
        )
    }

    /// The application's card under the greeting at position `pick`, `now`
    /// being the present moment: the applicant, when the application was
    /// received, its status and the moderator's reason, and the guild's
    /// questions with the answers. `user` is the applicant's profile.
    pub fn as_embed_with(&self, config: &Config, user: &UserProfile, pick: usize, now: i64) -> (embed:
        Embed)
        requires
            self.wf(),
            pick < TOAST_COUNT,
        ensures
            embed@ == self.card(config, user, pick as int, self.received(now)),
    {
        let mut text = String::from_str("**Profile:** <@");
        text.append(decimal(self.user).as_str());
        text.append(">\n");
        text.append("**Received:** ");
        text.append(self.created_string_at(now).to_string().as_str());
        text.append("\n");
        text.append("**Status:** ");
        text.append(self.status.to_string().as_str());
        text.append("\n");
        match &self.reason {
            Some(reason) => {
                text.append("**Reason:** ");
                text.append(reason.as_str());
            },
            None => {},
        }
        assert(text@ =~= self.card_text(self.received(now)));
        let mut embed = Embed::new().author(user.as_author()).color(user.colour()).description(
            text.as_str(),
        ).thumbnail(user.face.as_str()).title(toast(pick));
        let ghost base = embed@;
        let mut index: usize = 0;
        while index < config.content.questions.len()
            invariant
                index <= config.content.questions.len(),
                embed@ == (EmbedView {
                    fields: answer_fields(
                        config.content.questions@,
                        self.answers@,
                        index as int,
                    ),
                    ..base
                }),
            decreases config.content.questions.len() - index,
        {
            if index < self.answers.len() {
                let mut answer = String::from_str("> ");
                answer.append(self.answers[index].as_str());
                embed = embed.field(
                    config.content.questions[index].as_str(),
                    answer.as_str(),
                    false,
                );
            } else {
                embed = embed.field(config.content.questions[index].as_str(), "N/A", false);
            }
            index += 1;
        }
        embed
    }

    /// The application's card at the present moment, under a greeting
    /// picked at random.
    pub fn as_embed(&self, config: &Config, user: &UserProfile) -> (embed: Embed)
        requires
            self.wf(),
        ensures
            exists|pick: int, now: i64|
                0 <= pick < TOAST_COUNT && embed@ == self.card(
                    config,
                    user,
                    pick,
                    self.received(now),
                ),
    {
        let pick = random_index(TOAST_COUNT);
        let now = now_millis();
        let embed = self.as_embed_with(config, user, pick, now);
        assert(embed@ == self.card(config, user, pick as int, self.received(now)));
        embed
    }

    /// Why a change to `status` is refused, if it is: the application has
    /// that status already, it is final and `overwrite` is not set, or it
    /// was never posted.
    pub open spec fn update_refusal(&self, status: Status, overwrite: bool) -> Option<Error> {
        if self.status == status {
            Some(Error::Other("The application already has this status"))
        } else if !overwrite && self.status.is_terminal() {
            Some(Error::Other("The user's application is already finalized"))
        } else if self.anchor is None {
            Some(Error::MissingValue(Value::Anchor))
        } else {
            None
        }
    }

    /// Every refusal of a change of status that comes from the state of the
    /// application is a failed precondition: a change to the status it has,
    /// and a change of an accepted or denied application without the word
    /// to overwrite it.
    pub proof fn lemma_update_refusal(&self, status: Status, overwrite: bool)
        requires
            self.status == status || (!overwrite && self.status.is_terminal()),
        ensures
            self.update_refusal(status, overwrite) matches Some(e) && e@.category()
                == Category::Precondition,
    {
    }

    /// Changes the status of the application and records the moderator's
    /// reason.
    ///
    /// The change is refused when the application has the status already,
    /// when it is accepted or denied and `overwrite` is not set, and when
    /// it was never posted; the application is then left as it was. On
    /// success the result says what else is to be done: the role is
    /// granted exactly when the new status is accepted, and the card's
    /// buttons stay in use exactly while it is pending.
    pub fn update(&mut self, status: Status, reason: Option<String>, overwrite: bool) -> (r: Result<
        Update,
    >)
        ensures
            match old(self).update_refusal(status, overwrite) {
                Some(e) => r == Err::<Update, Error>(e) && *final(self) == *old(self),
                None => {
                    &&& *final(self) == (Form { status, reason, ..*old(self) })
                    &&& r matches Ok(update)
                    &&& update.req@ == form_req(old(self).anchor.unwrap().guild, old(self).user)
                    &&& update.grant_role == (status == Status::Accepted)
                    &&& update.disable_buttons == (status != Status::Pending)
                    &&& update.card == old(self).anchor.unwrap()
                },
            },
    {
        if self.status == status {
            return Err(Error::Other("The application already has this status"));
        }
        if !overwrite && (self.status == Status::Accepted || self.status == Status::Denied) {
            return Err(Error::Other("The user's application is already finalized"));
        }
        let card = match self.anchor {
            Some(anchor) => anchor,
            None => {
                return Err(Error::MissingValue(Value::Anchor));
            },
        };
        self.status = status;
        self.reason = reason;
        Ok(
            Update {
                req: <Form as NewReq<(u64, u64)>>::new_req((card.guild, self.user)),
                grant_role: status == Status::Accepted,
                disable_buttons: status != Status::Pending,
                card,
            },
        )
    }

    /// Removes the application: its card is to be deleted and its record
    /// removed. An application that was never posted has no key of its own,
    /// and its anchor is reported as the missing value.
    pub fn remove(&self) -> (r: Result<Removal>)
        ensures
            match self.anchor {
                Some(anchor) => r matches Ok(removal) && removal.card == anchor && removal.req@
                    == form_req(anchor.guild, self.user),
                None => r == Err::<Removal, Error>(Error::MissingValue(Value::Anchor)),
            },
    {
        match self.anchor {
            Some(anchor) => Ok(
                Removal {
                    req: <Form as NewReq<(u64, u64)>>::new_req((anchor.guild, self.user)),
                    card: anchor,
                },
            ),
            None => Err(Error::MissingValue(Value::Anchor)),
        }
    }

    /// The head line of the note that tells the applicant of the status.
    pub open spec fn notice_title(status: Status) -> &'static str {
        match status {
            Status::Accepted => "Your application has been accepted!",
            Status::Denied => "Your application has been denied.",
            Status::Resend => "You have been asked to resubmit your application.",
            Status::Pending => "",
        }
    }

    /// The note that tells the applicant where the application stands.
    /// There is none for a pending application: its status is reported as
    /// an invalid value.
    pub fn notify(&self) -> (r: Result<Notice>)
        ensures
            self.status != Status::Pending ==> r == Ok::<Notice, Error>(
                Notice { status: self.status, title: Self::notice_title(self.status) },
            ),
            self.status == Status::Pending ==> (r matches Err(e) && e@ == ErrorView::InvalidValue(
                Value::Other("Status"),
                Status::Pending.label(),
            )),
    {
        let title = match self.status {
            Status::Accepted => "Your application has been accepted!",
            Status::Denied => "Your application has been denied.",
            Status::Resend => "You have been asked to resubmit your application.",
            Status::Pending => {
                return Err(Error::InvalidValue(Value::Other("Status"), self.status.to_string()));
            },
        };
        Ok(Notice { status: self.status, title })
    }

    /// The identifier of one of the card's buttons.
    pub open spec fn button_id(&self, name: Seq<char>) -> Seq<char> {
        encode(name, seq![decimal_seq(self.user as nat)])
    }

    /// The buttons of the card, as [`AsButtonVec`] gives them.
    pub open spec fn buttons(&self, disabled: bool) -> Seq<ButtonView> {
        seq![
            ButtonView {
                custom_id: self.button_id(BUTTON_ACCEPT@),
                disabled,
                emoji: Some(EmojiView::Unicode(seq!['👍'])),
                label: Some("Accept"@),
                style: ButtonStyle::Success,
            },
            ButtonView {
                custom_id: self.button_id(BUTTON_DENY@),
                disabled,
                emoji: Some(EmojiView::Unicode(seq!['👎'])),
                label: Some("Deny"@),
                style: ButtonStyle::Danger,
            },
            ButtonView {
                custom_id: self.button_id(BUTTON_RESEND@),
                disabled,
                emoji: Some(EmojiView::Unicode(seq!['🤷'])),
                label: Some("Resend"@),
                style: ButtonStyle::Secondary,
            },
        ]
    }


    /// The buttons of the card as it stands: in use while the application
    /// is pending, switched off afterwards.
    pub fn card_buttons(&self) -> (buttons: Vec<Button>)
        ensures
            buttons.deep_view() == self.buttons(self.status != Status::Pending),
    {
        self.as_buttons(self.status != Status::Pending, ())
    }

    /// The modal in which a moderator gives the reason of a change.
    pub open spec fn update_modal(&self, status: Status) -> ModalView {
        ModalView {
            custom_id: encode(
                MODAL_UPDATE@,
                seq![decimal_seq(self.user as nat), decimal_seq(status.ordinal_spec() as nat)],
            ),
            title: "Update Application"@,
            inputs: seq![
                TextInputView {
                    custom_id: OPTION_REASON@,
                    label: "Reason (optional)"@,
                    style: InputTextStyle::Short,
                    max_length: Some(256u16),
                    required: false,
                    placeholder: None,
                },
            ],
        }
    }

}

impl Anchored for Form {
    open spec fn anchor_spec(&self) -> Option<Anchor> {
        self.anchor
    }

    fn anchor(&self) -> (r: Result<Anchor>) {
        anchor_or_missing(self.anchor)
    }
}

impl NewReq<(u64, u64)> for Form {
    open spec fn req_spec(args: (u64, u64)) -> ReqView {
        form_req(args.0, args.1)
    }

    /// The key of the application of the user `args.1` in the guild
    /// `args.0`.
    fn new_req(args: (u64, u64)) -> (req: Req<Self>) {
        let mut dir = String::from_str(NAME);
        let ghost name = dir@;
        push_char(&mut dir, '/');
        assert(dir@ == name + seq!['/']);
        dir.append(decimal(args.0).as_str());
        Req::new(dir.as_str(), decimal(args.1).as_str())
    }
}

impl TryAsReq<()> for Form {
    open spec fn try_as_req_spec(&self, args: ()) -> core::result::Result<ReqView, ErrorView> {
        match self.anchor {
            Some(anchor) => Ok(form_req(anchor.guild, self.user)),
            None => Err(ErrorView::MissingValue(Value::Anchor)),
        }
    }

    /// The application's own key, which is known once it is posted.
    fn try_as_req(&self, args: ()) -> (r: Result<Req<Self>>) {
        match self.anchor {
            Some(anchor) => Ok(<Form as NewReq<(u64, u64)>>::new_req((anchor.guild, self.user))),
            None => Err(Error::MissingValue(Value::Anchor)),
        }
    }
}

impl AsReq<u64> for Form {
    open spec fn as_req_spec(&self, guild: u64) -> ReqView {
        form_req(guild, self.user)
    }

    /// The application's own key in `guild`.
    fn as_req(&self, guild: u64) -> (req: Req<Self>) {
        <Form as NewReq<(u64, u64)>>::new_req((guild, self.user))
    }
}

impl AsButtonVec<()> for Form {
    open spec fn buttons_view(&self, disabled: bool, args: ()) -> Seq<ButtonView> {
        self.buttons(disabled)
    }

    /// The three buttons of the card: accept, deny, resend. Each carries
    /// the applicant in its identifier.
    fn as_buttons(&self, disabled: bool, args: ()) -> (buttons: Vec<Button>) {
        let accept = Button::new(
            CustomId::new(BUTTON_ACCEPT).arg_number(self.user).to_string(),
        ).disabled(disabled).emoji('👍').label("Accept").style(ButtonStyle::Success);
        let deny = Button::new(
            CustomId::new(BUTTON_DENY).arg_number(self.user).to_string(),
        ).disabled(disabled).emoji('👎').label("Deny").style(ButtonStyle::Danger);
        let resend = Button::new(
            CustomId::new(BUTTON_RESEND).arg_number(self.user).to_string(),
        ).disabled(disabled).emoji('🤷').label("Resend").style(ButtonStyle::Secondary);
        let mut buttons: Vec<Button> = Vec::new();
        buttons.push(accept);
        buttons.push(deny);
        buttons.push(resend);
        proof {
            let empty = Seq::<Seq<char>>::empty();
            assert(empty.push(decimal_seq(self.user as nat)) == seq![decimal_seq(self.user as nat)]);
            assert(buttons.deep_view() == self.buttons(disabled));
        }
        buttons
    }
}

impl AsModal<Status> for Form {
    open spec fn modal_view(&self, status: Status) -> ModalView {
        self.update_modal(status)
    }

    /// The modal in which a moderator gives the reason of a change to
    /// `status`. Its identifier carries the applicant and the status.
    fn as_modal(&self, status: Status) -> (modal: Modal) {
        let custom_id = CustomId::new(MODAL_UPDATE).arg_number(self.user).arg_number(
            status.ordinal() as u64,
        );
        let mut inputs: Vec<TextInput> = Vec::new();
        inputs.push(
            TextInput::new(
                InputTextStyle::Short,
                "Reason (optional)",
                String::from_str(OPTION_REASON),
            ).max_length(256).required(false),
        );
        let modal = Modal {
            custom_id: custom_id.to_string(),
            title: String::from_str("Update Application"),
            inputs,
        };
        proof {
            let empty = Seq::<Seq<char>>::empty();
            assert(empty.push(decimal_seq(self.user as nat)).push(
                decimal_seq(status.ordinal_spec() as nat),
            ) == seq![decimal_seq(self.user as nat), decimal_seq(status.ordinal_spec() as nat)]);
            assert(modal.inputs.deep_view() == self.update_modal(status).inputs);
        }
        modal
    }
}

} // verus!
