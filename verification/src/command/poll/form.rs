//! A poll and the rules of its life: a draft is filled with inputs, sent,
//! answered while it is open, and closed once.

use std::collections::BTreeMap;
use std::collections::BTreeSet;
use vstd::prelude::*;
use vstd::string::*;

use crate::command::poll::input::Input;
use crate::command::poll::input::BUTTON_RAFFLE;
use crate::command::poll::input::BUTTON_RESPONSE;
use crate::command::poll::output::Output;
use crate::command::poll::NAME;
use crate::utility::clock::created_millis;
use crate::utility::clock::lemma_created_millis_bounds;
use crate::utility::clock::now_millis;
use crate::utility::custom_id::encode;
use crate::utility::custom_id::CustomId;
use crate::utility::formatting::TimeString;
use crate::utility::platform::blank_embed;
use crate::utility::platform::Button;
use crate::utility::platform::Embed;
use crate::utility::platform::EmbedFooter;
use crate::utility::platform::EmbedFooterView;
use crate::utility::platform::EmbedView;
use crate::utility::platform::Message;
use crate::utility::platform::MessageView;
use crate::utility::platform::UserProfile;
use crate::utility::BOT_COLOR;
use crate::utility::platform::ButtonStyle;
use crate::utility::platform::ButtonView;
use crate::utility::platform::Emoji;
use crate::utility::platform::EmojiView;
use crate::utility::platform::Modal;
use crate::utility::platform::ModalView;
use crate::utility::platform::TextInput;
use crate::utility::platform::TextInputView;
use crate::utility::platform::reaction_of;
use crate::utility::text::same_text;
use crate::utility::anchor::anchor_or_missing;
use crate::utility::anchor::Anchor;
use crate::utility::anchor::Anchored;
use crate::utility::req::AsReq;
use crate::utility::seqs::at_most;
use crate::utility::seqs::lemma_take_contains;
use crate::utility::req::NewReq;
use crate::utility::req::Req;
use crate::utility::req::ReqView;
use crate::utility::text::decimal;
use crate::utility::text::decimal_seq;
use crate::utility::req::lemma_path_injective;
use crate::utility::text::is_digit;
use crate::utility::text::lemma_decimal_injective;
use crate::utility::text::lemma_decimal_value;
use crate::utility::text::push_char;
use crate::utility::text::signed_decimal;
use crate::utility::text::signed_decimal_seq;
use crate::utility::Category;
use crate::utility::Error;
use crate::utility::ErrorView;
use crate::utility::Result;
use crate::utility::Value;

use crate::utility::traits::AsButton;
use crate::utility::traits::AsButtonVec;
use crate::utility::traits::TryAsModal;

verus! {

pub const BUTTON_REMOVE: &'static str = "poll_remove";

pub const BUTTON_RESULTS: &'static str = "poll_results";

pub const MODAL_SUBMIT: &'static str = "poll_submit";

/// The kind of a poll. It fixes what the poll asks and what a reply holds.
#[derive(Clone, Copy, Debug, PartialEq, Eq, Structural)]
pub enum Kind {
    /// Voters pick one of several options.
    Choice,
    /// Voters answer questions in writing.
    Response,
    /// Voters enter a draw.
    Raffle,
}

impl Kind {
    /// The number under which the kind travels in options.
    pub open spec fn ordinal_spec(self) -> i32 {
        match self {
            Kind::Choice => 0,
            Kind::Response => 1,
            Kind::Raffle => 2,
        }
    }

    /// The number under which the kind travels in options.
    pub fn ordinal(self) -> (n: i32)
        ensures
            n == self.ordinal_spec(),
    {
        match self {
            Kind::Choice => 0,
            Kind::Response => 1,
            Kind::Raffle => 2,
        }
    }

    /// The kind with the given number.
    pub open spec fn from_ordinal(value: int) -> Option<Kind> {
        if value == 0 {
            Some(Kind::Choice)
        } else if value == 1 {
            Some(Kind::Response)
        } else if value == 2 {
            Some(Kind::Raffle)
        } else {
            None
        }
    }

    /// The kind with the given number; any other number is reported as an
    /// invalid identifier, in decimal notation.
    pub fn try_from(value: i64) -> (r: Result<Kind>)
        ensures
            match Kind::from_ordinal(value as int) {
                Some(kind) => r == Ok::<Kind, Error>(kind),
                None => r matches Err(e) && e@ == ErrorView::InvalidId(
                    Value::Data,
                    signed_decimal_seq(value as int),
                ),
            },
    {
        match value {
            0 => Ok(Kind::Choice),
            1 => Ok(Kind::Response),
            2 => Ok(Kind::Raffle),
            _ => Err(Error::InvalidId(Value::Data, signed_decimal(value))),
        }
    }

    /// The kind as cards show it.
    pub open spec fn label(self) -> Seq<char> {
        match self {
            Kind::Choice => "🔢 Choice"@,
            Kind::Response => "📝 Response"@,
            Kind::Raffle => "🎲 Raffle"@,
        }
    }

    /// The kind as cards show it.
    pub fn to_string(&self) -> (s: String)
        ensures
            s@ == self.label(),
    {
        match self {
            Kind::Choice => String::from_str("🔢 Choice"),
            Kind::Response => String::from_str("📝 Response"),
            Kind::Raffle => String::from_str("🎲 Raffle"),
        }
    }
}

/// The polls that are open, by guild and owner. A periodic sweep closes
/// those whose time is up.
#[derive(Clone, Debug)]
pub struct Active(pub BTreeSet<(u64, u64)>);

impl Default for Active {
    fn default() -> (active: Self)
        ensures
            active.0@ == Set::<(u64, u64)>::empty(),
    {
        Active(BTreeSet::new())
    }
}

impl Active {
    /// No open poll.
    pub fn new() -> (active: Self)
        ensures
            active.0@ == Set::<(u64, u64)>::empty(),
    {
        Active(BTreeSet::new())
    }

    /// Whether the poll of `user` in `guild` is listed as open.
    pub fn contains(&self, guild: u64, user: u64) -> (b: bool)
        ensures
            b == self.0@.contains((guild, user)),
    {
        self.0.contains(&(guild, user))
    }

    /// Lists the poll of `user` in `guild` as open.
    pub fn insert(&mut self, guild: u64, user: u64)
        ensures
            final(self).0@ == old(self).0@.insert((guild, user)),
    {
        self.0.insert((guild, user));
    }

    /// Strikes every poll named in `stale` from the list.
    pub fn prune(&mut self, stale: &Vec<(u64, u64)>)
        ensures
            forall|key: (u64, u64)|
                final(self).0@.contains(key) <==> (old(self).0@.contains(key) && !stale@.contains(
                    key,
                )),
    {
        let mut i: usize = 0;
        while i < stale.len()
            invariant
                i <= stale.len(),
                forall|key: (u64, u64)|
                    self.0@.contains(key) <==> (old(self).0@.contains(key) && !stale@.take(
                        i as int,
                    ).contains(key)),
            decreases stale.len() - i,
        {
            proof {
                lemma_take_contains(stale@, i as int);
            }
            let key = stale[i];
            self.0.remove(&key);
            i += 1;
        }
        assert(stale@.take(stale.len() as int) == stale@);
    }

    /// Strikes the poll of `user` in `guild` from the list.
    pub fn remove(&mut self, guild: u64, user: u64)
        ensures
            final(self).0@ == old(self).0@.remove((guild, user)),
    {
        self.0.remove(&(guild, user));
    }
}

/// The key of the list of open polls.
pub open spec fn active_req() -> ReqView {
    ReqView { dir: NAME@, key: ".dat"@ }
}

impl NewReq<()> for Active {
    open spec fn req_spec(args: ()) -> ReqView {
        active_req()
    }

    fn new_req(args: ()) -> (req: Req<Self>) {
        Req::new(NAME, ".dat")
    }
}

impl AsReq<()> for Active {
    open spec fn as_req_spec(&self, args: ()) -> ReqView {
        active_req()
    }

    fn as_req(&self, args: ()) -> (req: Req<Self>) {
        Req::new(NAME, ".dat")
    }
}

/// What a poll says of itself.
#[derive(Clone, Debug)]
pub struct Content {
    pub title: String,
    pub description: String,
    /// For how many hours the poll stays open once it is sent.
    pub hours: i64,
    pub image: Option<String>,
    /// Whether the results keep the voters' names to themselves.
    pub hide_members: bool,
    /// Whether only the owner may see the results.
    pub hide_results: bool,
}

/// The mathematical value of a [`Content`].
pub ghost struct ContentView {
    pub title: Seq<char>,
    pub description: Seq<char>,
    pub hours: i64,
    pub image: Option<Seq<char>>,
    pub hide_members: bool,
    pub hide_results: bool,
}

impl View for Content {
    type V = ContentView;

    open spec fn view(&self) -> ContentView {
        ContentView {
            title: self.title@,
            description: self.description@,
            hours: self.hours,
            image: self.image.deep_view(),
            hide_members: self.hide_members,
            hide_results: self.hide_results,
        }
    }
}

/// The shortest time, in hours, that the command offers for a poll.
pub const MIN_HOURS: i64 = 1;

/// The longest time, in hours, that the command offers for a poll.
pub const MAX_HOURS: i64 = 240;

/// The most hours, before or after the start, for which the moment at
/// which a poll closes can be told in milliseconds.
pub const HOURS_LIMIT: i64 = 0x100_0000_0000;

impl Content {
    /// Whether the duration is short enough for the moment at which the
    /// poll closes to be a timestamp.
    pub open spec fn wf(&self) -> bool {
        -HOURS_LIMIT <= self.hours <= HOURS_LIMIT
    }

    /// Whether the duration is short enough for the moment at which the
    /// poll closes to be a timestamp.
    pub fn is_valid(&self) -> (b: bool)
        ensures
            b == self.wf(),
    {
        -HOURS_LIMIT <= self.hours && self.hours <= HOURS_LIMIT
    }
}

/// What one voter said.
#[derive(Clone, Debug)]
pub enum Reply {
    /// The position of the option picked.
    Choice(usize),
    /// The answers, in the order of the questions.
    Response(Vec<String>),
    /// An entry in the draw.
    Raffle,
}

impl Reply {
    /// The kind of poll that the reply belongs to.
    pub open spec fn kind_spec(&self) -> Kind {
        match self {
            Reply::Choice(_) => Kind::Choice,
            Reply::Response(_) => Kind::Response,
            Reply::Raffle => Kind::Raffle,
        }
    }

    /// The kind of poll that the reply belongs to.
    pub fn kind(&self) -> (kind: Kind)
        ensures
            kind == self.kind_spec(),
    {
        match self {
            Reply::Choice(_) => Kind::Choice,
            Reply::Response(_) => Kind::Response,
            Reply::Raffle => Kind::Raffle,
        }
    }

    /// Whether the reply can stand in a poll of the given kind with
    /// `inputs` inputs: it is of that kind, and a choice names one of the
    /// options.
    pub open spec fn fits(&self, kind: Kind, inputs: nat) -> bool {
        &&& self.kind_spec() == kind
        &&& self matches Reply::Choice(index) ==> index < inputs
    }
}

/// The key of the draft or open poll of `user` in `guild`.
pub open spec fn form_req(guild: u64, user: u64) -> ReqView {
    ReqView { dir: NAME@ + seq!['/'] + decimal_seq(guild as nat), key: decimal_seq(user as nat) }
}

/// The key of the closed poll of `user` in `guild` that was posted as
/// `message`.
pub open spec fn archive_req(guild: u64, user: u64, message: u64) -> ReqView {
    ReqView {
        dir: NAME@ + seq!['/'] + decimal_seq(guild as nat) + seq!['/'] + decimal_seq(user as nat),
        key: decimal_seq(message as nat),
    }
}

/// Different owners, or different guilds, never share a file.
pub proof fn lemma_form_path_injective(guild_a: u64, user_a: u64, guild_b: u64, user_b: u64)
    requires
        form_req(guild_a, user_a).path() == form_req(guild_b, user_b).path(),
    ensures
        guild_a == guild_b,
        user_a == user_b,
{
    lemma_decimal_value(user_a as nat);
    lemma_decimal_value(user_b as nat);
    let a = decimal_seq(user_a as nat);
    let b = decimal_seq(user_b as nat);
    assert forall|i: int| 0 <= i < a.len() implies a[i] != '/' by {
        assert(is_digit(a[i]));
    }
    assert forall|i: int| 0 <= i < b.len() implies b[i] != '/' by {
        assert(is_digit(b[i]));
    }
    lemma_path_injective(
        form_req(guild_a, user_a),
        form_req(guild_b, user_b),
    );
    lemma_form_req_injective(guild_a, user_a, guild_b, user_b);
}

/// Different owners, or different guilds, never share a key.
pub proof fn lemma_form_req_injective(guild_a: u64, user_a: u64, guild_b: u64, user_b: u64)
    requires
        form_req(guild_a, user_a) == form_req(guild_b, user_b),
    ensures
        guild_a == guild_b,
        user_a == user_b,
{
    let prefix = NAME@ + seq!['/'];
    let a = decimal_seq(guild_a as nat);
    let b = decimal_seq(guild_b as nat);
    assert((prefix + a).skip(prefix.len() as int) == a);
    assert((prefix + b).skip(prefix.len() as int) == b);
    lemma_decimal_injective(guild_a as nat, guild_b as nat);
    lemma_decimal_injective(user_a as nat, user_b as nat);
}

/// The directory of a guild's polls.
fn guild_dir(guild: u64) -> (dir: String)
    ensures
        dir@ == NAME@ + seq!['/'] + decimal_seq(guild as nat),
{
    let mut dir = String::from_str(NAME);
    let ghost name = dir@;
    push_char(&mut dir, '/');
    assert(dir@ == name + seq!['/']);
    dir.append(decimal(guild).as_str());
    dir
}

/// A poll.
#[derive(Clone, Debug)]
pub struct Form {
    /// The owner.
    pub user: u64,
    pub kind: Kind,
    pub content: Content,
    pub inputs: Vec<Input>,
    /// What each voter said; a voter has one reply at most.
    pub replies: BTreeMap<u64, Reply>,
    /// The card of the poll, once it is sent.
    pub anchor: Option<Anchor>,
    /// The results, once the poll is closed.
    pub output: Option<Output>,
}

/// Where a poll stands in its life.
#[derive(Clone, Copy, Debug, PartialEq, Eq, Structural)]
pub enum Stage {
    /// Not yet sent: the owner may still change it.
    Draft,
    /// Sent and open to replies.
    Active,
    /// Closed: the results are fixed.
    Closed,
}

/// What the owner changes in a draft; fields left out stay as they are.
#[derive(Debug)]
pub struct Change {
    /// A new kind, which empties the inputs.
    pub kind: Option<Kind>,
    pub title: Option<String>,
    pub description: Option<String>,
    pub hours: Option<i64>,
    pub image: Option<String>,
    pub hide_members: Option<bool>,
    pub hide_results: Option<bool>,
}

/// What follows from sending a poll.
#[derive(Debug)]
pub struct Sent {
    /// The key under which the open poll is stored.
    pub req: Req<Form>,
    /// The guild and the owner under which the poll is to be listed as
    /// open, so that the sweep finds it when its time is up.
    pub entry: (u64, u64),
}

/// A closed poll and what is left to do for it.
#[derive(Debug)]
pub struct Closed {
    /// The poll, with its results.
    pub form: Form,
    /// The guild and the owner under which the poll is listed as open: the
    /// entry is to be struck from the list.
    pub entry: (u64, u64),
    /// The key under which the closed poll is kept.
    pub archive: Req<Form>,
    /// The key of the open poll, which is to be removed.
    pub draft: Req<Form>,
    /// The card, whose buttons are to be switched off.
    pub card: Anchor,
}

/// Whether two polls differ in their replies at most.
pub open spec fn same_but_replies(a: &Form, b: &Form) -> bool {
    &&& a.user == b.user
    &&& a.kind == b.kind
    &&& a.content == b.content
    &&& a.inputs == b.inputs
    &&& a.anchor == b.anchor
    &&& a.output == b.output
}

/// Whether two polls differ in their inputs at most.
pub open spec fn same_but_inputs(a: &Form, b: &Form) -> bool {
    &&& a.user == b.user
    &&& a.kind == b.kind
    &&& a.content == b.content
    &&& a.replies == b.replies
    &&& a.anchor == b.anchor
    &&& a.output == b.output
}

/// Whether some input among the first `upto` has the given label.
pub open spec fn has_label(inputs: Seq<Input>, label: Seq<char>, upto: int) -> bool {
    exists|i: int| 0 <= i < upto && i < inputs.len() && (#[trigger] inputs[i]).label_spec() == label
}

impl Form {
    /// A draft of `user` without inputs.
    pub fn new(user: u64, kind: Kind, content: Content) -> (form: Self)
        ensures
            form.user == user,
            form.kind == kind,
            form.content == content,
            form.inputs@ == Seq::<Input>::empty(),
            form.replies@ == Map::<u64, Reply>::empty(),
            form.anchor is None,
            form.output is None,
            form.wf(),
    {
        Form {
            user,
            kind,
            content,
            inputs: Vec::new(),
            replies: BTreeMap::new(),
            anchor: None,
            output: None,
        }
    }

    /// Where the poll stands: closed once it has results, open once it is
    /// sent, a draft before.
    pub open spec fn stage_spec(&self) -> Stage {
        if self.output is Some {
            Stage::Closed
        } else if self.anchor is Some {
            Stage::Active
        } else {
            Stage::Draft
        }
    }

    /// Where the poll stands in its life.
    pub fn stage(&self) -> (stage: Stage)
        ensures
            stage == self.stage_spec(),
    {
        if self.output.is_some() {
            Stage::Closed
        } else if self.anchor.is_some() {
            Stage::Active
        } else {
            Stage::Draft
        }
    }

    /// What holds of every poll that this module made: the inputs are of
    /// the poll's kind, no more than the kind allows and differently
    /// labelled; the replies are of the poll's kind, and a choice names one
    /// of the options; a draft has no replies; only a poll that was sent
    /// has results, and they are of its kind.
    pub open spec fn wf(&self) -> bool {
        &&& self.inputs.len() <= Input::max_count_spec(self.kind)
        &&& forall|i: int|
            0 <= i < self.inputs.len() ==> (#[trigger] self.inputs[i]).kind_spec() == self.kind
        &&& forall|i: int, j: int|
            0 <= i < j < self.inputs.len() ==> (#[trigger] self.inputs[i]).label_spec() != (
            #[trigger] self.inputs[j]).label_spec()
        &&& forall|user: u64|
            self.replies@.contains_key(user) ==> (#[trigger] self.replies@[user]).fits(
                self.kind,
                self.inputs.len() as nat,
            )
        &&& self.anchor is None ==> self.replies@ == Map::<u64, Reply>::empty()
        &&& self.anchor matches Some(anchor) ==> anchor.wf()
        &&& self.output matches Some(output) ==> self.anchor is Some && output.kind_spec()
            == self.kind
    }

    /// Creates the draft of `user`. A user has one poll at a time: while
    /// one is stored, a new one is refused.
    pub fn create(existing: Option<&Form>, user: u64, kind: Kind, content: Content) -> (r: Result<
        Form,
    >)
        ensures
            existing is Some ==> r == Err::<Form, Error>(Error::Other("You already have a poll")),
            existing is None ==> (r matches Ok(form) && form.user == user && form.kind == kind
                && form.content == content && form.inputs@ == Seq::<Input>::empty() && form.replies@
                == Map::<u64, Reply>::empty() && form.anchor is None && form.output is None
                && form.wf()),
    {
        match existing {
            Some(_) => Err(Error::Other("You already have a poll")),
            None => Ok(Self::new(user, kind, content)),
        }
    }

    /// The content after a change.
    pub open spec fn changed_content(content: Content, change: Change) -> Content {
        Content {
            title: match change.title {
                Some(title) => title,
                None => content.title,
            },
            description: match change.description {
                Some(description) => description,
                None => content.description,
            },
            hours: match change.hours {
                Some(hours) => hours,
                None => content.hours,
            },
            image: match change.image {
                Some(image) => Some(image),
                None => content.image,
            },
            hide_members: match change.hide_members {
                Some(hidden) => hidden,
                None => content.hide_members,
            },
            hide_results: match change.hide_results {
                Some(hidden) => hidden,
                None => content.hide_results,
            },
        }
    }

    /// Changes a draft. A poll that was sent is left as it is, and the
    /// change is refused. A new kind empties the inputs.
    pub fn modify(&mut self, change: Change) -> (r: Result<()>)
        ensures
            old(self).anchor is Some ==> (r == Err::<(), Error>(
                Error::Other("Your poll has already been sent"),
            ) && *final(self) == *old(self)),
            old(self).anchor is None ==> {
                &&& r == Ok::<(), Error>(())
                &&& final(self).user == old(self).user
                &&& final(self).kind == (match change.kind {
                    Some(kind) => kind,
                    None => old(self).kind,
                })
                &&& final(self).content == Self::changed_content(old(self).content, change)
                &&& final(self).inputs@ == (match change.kind {
                    Some(_) => Seq::<Input>::empty(),
                    None => old(self).inputs@,
                })
                &&& final(self).replies == old(self).replies
                &&& final(self).anchor is None
                &&& final(self).output == old(self).output
            },
            old(self).wf() ==> final(self).wf(),
            final(self).stage_spec() == old(self).stage_spec(),
    {
        if self.anchor.is_some() {
            return Err(Error::Other("Your poll has already been sent"));
        }
        let Change { kind, title, description, hours, image, hide_members, hide_results } = change;
        if let Some(kind) = kind {
            self.kind = kind;
            self.inputs.clear();
        }
        if let Some(title) = title {
            self.content.title = title;
        }
        if let Some(description) = description {
            self.content.description = description;
        }
        if let Some(hours) = hours {
            self.content.hours = hours;
        }
        if let Some(image) = image {
            self.content.image = Some(image);
        }
        if let Some(hidden) = hide_members {
            self.content.hide_members = hidden;
        }
        if let Some(hidden) = hide_results {
            self.content.hide_results = hidden;
        }
        Ok(())
    }

    /// Why an input labelled `label` cannot be added, if it cannot: the
    /// poll was sent, it has as many inputs as its kind allows, or one of
    /// them has that label already.
    pub open spec fn add_refusal(&self, label: Seq<char>) -> Option<Error> {
        if self.anchor is Some {
            Some(Error::Other("Your poll has already been sent"))
        } else if self.inputs.len() >= Input::max_count_spec(self.kind) {
            Some(Error::Other("No more inputs may be added"))
        } else if has_label(self.inputs@, label, self.inputs.len() as int) {
            Some(Error::Other("The given input already exists"))
        } else {
            None
        }
    }

    /// Whether `input` is the input that [`Form::add_input`] makes for a
    /// poll of the given kind.
    pub open spec fn is_new_input(
        input: Input,
        kind: Kind,
        label: Seq<char>,
        emoji: Option<Emoji>,
        placeholder: Option<Seq<char>>,
    ) -> bool {
        match input {
            Input::Choice(data) => kind == Kind::Choice && data.label@ == label && data.data
                == emoji,
            Input::Response(data) => kind == Kind::Response && data.label@ == label
                && data.data.deep_view() == placeholder,
        }
    }

    /// Adds an input to a draft: an option with the given emoji to a choice
    /// poll, a question with the given placeholder to a response poll.
    ///
    /// Refused, and the poll left as it is, when the poll was sent, when
    /// it has as many inputs as its kind allows (a raffle allows none), and
    /// when an input has that label already.
    pub fn add_input(
        &mut self,
        label: &str,
        emoji: Option<Emoji>,
        placeholder: Option<&str>,
    ) -> (r: Result<()>)
        ensures
            match old(self).add_refusal(label@) {
                Some(e) => r == Err::<(), Error>(e) && *final(self) == *old(self),
                None => {
                    &&& r == Ok::<(), Error>(())
                    &&& same_but_inputs(&*final(self), &*old(self))
                    &&& final(self).inputs@.len() == old(self).inputs@.len() + 1
                    &&& final(self).inputs@.drop_last() == old(self).inputs@
                    &&& Self::is_new_input(
                        final(self).inputs@.last(),
                        old(self).kind,
                        label@,
                        emoji,
                        placeholder.deep_view(),
                    )
                },
            },
            old(self).wf() ==> final(self).wf(),
            final(self).stage_spec() == old(self).stage_spec(),
    {
        if self.anchor.is_some() {
            return Err(Error::Other("Your poll has already been sent"));
        }
        if self.inputs.len() >= Input::max_count(self.kind) {
            return Err(Error::Other("No more inputs may be added"));
        }
        let mut i: usize = 0;
        while i < self.inputs.len()
            invariant
                i <= self.inputs.len(),
                *self == *old(self),
                self.anchor is None,
                self.inputs.len() < Input::max_count_spec(self.kind),
                !has_label(self.inputs@, label@, i as int),
            decreases self.inputs.len() - i,
        {
            if same_text(self.inputs[i].label(), label) {
                assert(self.inputs@[i as int].label_spec() == label@);
                assert(has_label(old(self).inputs@, label@, old(self).inputs.len() as int));
                return Err(Error::Other("The given input already exists"));
            }
            i += 1;
        }
        let input = match self.kind {
            Kind::Choice => Input::choice(label, emoji),
            Kind::Response => Input::response(label, placeholder),
            Kind::Raffle => {
                return Err(Error::Other("Raffle polls do not support inputs"));
            },
        };
        self.inputs.push(input);
        proof {
            assert(final(self).inputs@.drop_last() == old(self).inputs@);
            if old(self).wf() {
                assert forall|i: int, j: int| 0 <= i < j < self.inputs.len() implies (
                #[trigger] self.inputs[i]).label_spec() != (
                #[trigger] self.inputs[j]).label_spec() by {
                    if j == self.inputs.len() - 1 {
                        assert(old(self).inputs[i] == self.inputs[i]);
                    } else {
                        assert(old(self).inputs[i] == self.inputs[i]);
                        assert(old(self).inputs[j] == self.inputs[j]);
                    }
                }
                assert forall|i: int| 0 <= i < self.inputs.len() implies (
                #[trigger] self.inputs[i]).kind_spec() == self.kind by {
                    if i < self.inputs.len() - 1 {
                        assert(old(self).inputs[i] == self.inputs[i]);
                    }
                }
            }
        }
        Ok(())
    }

    /// Whether `after` is `before` with one more input at the end: the one
    /// labelled `label` that the poll's kind asks for, with the emoji that
    /// the typed text denotes.
    pub open spec fn input_added(
        before: &Form,
        after: &Form,
        label: Seq<char>,
        emoji: Option<Seq<char>>,
        placeholder: Option<Seq<char>>,
    ) -> bool {
        &&& same_but_inputs(after, before)
        &&& after.inputs@.len() == before.inputs@.len() + 1
        &&& after.inputs@.drop_last() == before.inputs@
        &&& exists|parsed: Option<Emoji>|
            parsed.deep_view() == (match emoji {
                Some(text) => reaction_of(text),
                None => None,
            }) && Self::is_new_input(
                after.inputs@.last(),
                before.kind,
                label,
                parsed,
                placeholder,
            )
    }

    /// Adds an input to a draft, reading the emoji of an option from what
    /// the owner typed; a text that is no emoji is ignored.
    pub fn add_input_from(
        &mut self,
        label: &str,
        emoji: Option<&str>,
        placeholder: Option<&str>,
    ) -> (r: Result<()>)
        ensures
            match old(self).add_refusal(label@) {
                Some(e) => r == Err::<(), Error>(e) && *final(self) == *old(self),
                None => r == Ok::<(), Error>(()) && Self::input_added(
                    &*old(self),
                    &*final(self),
                    label@,
                    emoji.deep_view(),
                    placeholder.deep_view(),
                ),
            },
            old(self).wf() ==> final(self).wf(),
            final(self).stage_spec() == old(self).stage_spec(),
    {
        let parsed = match emoji {
            Some(text) => Emoji::parse(text),
            None => None,
        };
        let ghost wanted = parsed;
        let r = self.add_input(label, parsed, placeholder);
        proof {
            if old(self).add_refusal(label@) is None {
                assert(wanted.deep_view() == (match emoji {
                    Some(text) => reaction_of(text@),
                    None => None,
                }) && Self::is_new_input(
                    final(self).inputs@.last(),
                    old(self).kind,
                    label@,
                    wanted,
                    placeholder.deep_view(),
                ));
            }
        }
        r
    }

    /// Why `actor` cannot remove the input at `index`, if they cannot: they
    /// do not own the poll, the poll was sent, or it has no such input.
    pub open spec fn remove_refusal(&self, actor: u64, index: usize) -> Option<ErrorView> {
        if actor != self.user {
            Some(ErrorView::Other("You cannot modify another user's poll"))
        } else if self.anchor is Some {
            Some(ErrorView::Other("Your poll has already been sent"))
        } else if index >= self.inputs.len() {
            Some(ErrorView::InvalidId(Value::Data, decimal_seq(index as nat)))
        } else {
            None
        }
    }

    /// Removes the input at `index` from a draft, on behalf of `actor`.
    /// Refused, and the poll left as it is, when the actor is not the
    /// owner, when the poll was sent, and when there is no such input.
    pub fn remove_input(&mut self, actor: u64, index: usize) -> (r: Result<()>)
        ensures
            match old(self).remove_refusal(actor, index) {
                Some(e) => r matches Err(got) && got@ == e && *final(self) == *old(self),
                None => {
                    &&& r == Ok::<(), Error>(())
                    &&& same_but_inputs(&*final(self), &*old(self))
                    &&& final(self).inputs@ == old(self).inputs@.remove(index as int)
                },
            },
            old(self).wf() ==> final(self).wf(),
            final(self).stage_spec() == old(self).stage_spec(),
    {
        if actor != self.user {
            return Err(Error::Other("You cannot modify another user's poll"));
        }
        if self.anchor.is_some() {
            return Err(Error::Other("Your poll has already been sent"));
        }
        if index >= self.inputs.len() {
            return Err(Error::InvalidId(Value::Data, decimal(index as u64)));
        }
        self.inputs.remove(index);
        proof {
            if old(self).wf() {
                assert forall|i: int| 0 <= i < self.inputs.len() implies (
                #[trigger] self.inputs[i]).kind_spec() == self.kind by {
                    if i < index {
                        assert(self.inputs[i] == old(self).inputs[i]);
                    } else {
                        assert(self.inputs[i] == old(self).inputs[i + 1]);
                    }
                }
                assert forall|i: int, j: int| 0 <= i < j < self.inputs.len() implies (
                #[trigger] self.inputs[i]).label_spec() != (
                #[trigger] self.inputs[j]).label_spec() by {
                    let a = if i < index { i } else { i + 1 };
                    let b = if j < index { j } else { j + 1 };
                    assert(self.inputs[i] == old(self).inputs[a]);
                    assert(self.inputs[j] == old(self).inputs[b]);
                }
            }
        }
        Ok(())
    }

    /// Why the poll cannot be sent, if it cannot: it was sent and `force`
    /// is not set, it asks nothing although it is no raffle, or it is a
    /// choice between fewer than two options.
    pub open spec fn send_refusal(&self, force: bool) -> Option<Error> {
        if self.anchor is Some && !force {
            Some(Error::Other("The poll has already been sent"))
        } else if self.kind != Kind::Raffle && self.inputs.len() == 0 {
            Some(Error::Other("Your poll does not have any inputs"))
        } else if self.kind == Kind::Choice && self.inputs.len() <= 1 {
            Some(Error::Other("Your poll must have more than one input"))
        } else {
            None
        }
    }

    /// Whether the poll can be sent. If it can, the result is the card it
    /// has from an earlier sending, which is to be deleted.
    pub fn check_send(&self, force: bool) -> (r: Result<Option<Anchor>>)
        ensures
            match self.send_refusal(force) {
                Some(e) => r == Err::<Option<Anchor>, Error>(e),
                None => r == Ok::<Option<Anchor>, Error>(self.anchor),
            },
    {
        if self.anchor.is_some() && !force {
            return Err(Error::Other("The poll has already been sent"));
        }
        if self.kind != Kind::Raffle && self.inputs.len() == 0 {
            return Err(Error::Other("Your poll does not have any inputs"));
        }
        if self.kind == Kind::Choice && self.inputs.len() <= 1 {
            return Err(Error::Other("Your poll must have more than one input"));
        }
        Ok(self.anchor)
    }

    /// Records that the poll's card was posted as `message` in `channel`
    /// of `guild`: the poll is open from now on. The result holds the key
    /// under which to store it, and the entry under which to list it as
    /// open.
    pub fn send(&mut self, guild: u64, channel: u64, message: u64) -> (sent: Sent)
        ensures
            *final(self) == (Form {
                anchor: Some(Anchor { guild, channel, message }),
                ..*old(self)
            }),
            sent.req@ == form_req(guild, old(self).user),
            sent.entry == (guild, old(self).user),
            final(self).stage_spec() == (if old(self).output is Some {
                Stage::Closed
            } else {
                Stage::Active
            }),
            old(self).wf() && old(self).anchor is None && guild != 0 && channel != 0 && message
                != 0 ==> final(self).wf(),
    {
        self.anchor = Some(Anchor::new(guild, channel, message));
        Sent {
            req: <Form as NewReq<(u64, u64)>>::new_req((guild, self.user)),
            entry: (guild, self.user),
        }
    }

    /// Why `voter` cannot reply to the poll, if they cannot: they own it,
    /// it is not open, or it is not of the kind `kind`. `own` is what an
    /// owner is told.
    pub open spec fn reply_refusal(&self, voter: u64, kind: Kind, own: &'static str) -> Option<
        ErrorView,
    > {
        if voter == self.user {
            Some(ErrorView::Other(own))
        } else if self.anchor is None {
            Some(ErrorView::Other("The poll has not been sent"))
        } else if self.output is Some {
            Some(ErrorView::Other("The poll has already been closed"))
        } else if self.kind != kind {
            Some(ErrorView::InvalidValue(Value::Data, self.kind.label()))
        } else {
            None
        }
    }

    /// Whether `voter` may reply to the poll with a reply of `kind`.
    fn check_reply(&self, voter: u64, kind: Kind, own: &'static str) -> (r: Result<()>)
        ensures
            match self.reply_refusal(voter, kind, own) {
                Some(e) => r matches Err(got) && got@ == e,
                None => r == Ok::<(), Error>(()),
            },
    {
        if voter == self.user {
            return Err(Error::Other(own));
        }
        if self.anchor.is_none() {
            return Err(Error::Other("The poll has not been sent"));
        }
        if self.output.is_some() {
            return Err(Error::Other("The poll has already been closed"));
        }
        if self.kind != kind {
            return Err(Error::InvalidValue(Value::Data, self.kind.to_string()));
        }
        Ok(())
    }

    /// Why `voter` cannot vote for the option at `index`, if they cannot.
    pub open spec fn vote_refusal(&self, voter: u64, index: usize) -> Option<ErrorView> {
        match self.reply_refusal(voter, Kind::Choice, "You cannot respond to your own poll") {
            Some(e) => Some(e),
            None => if index >= self.inputs.len() {
                Some(ErrorView::InvalidId(Value::Data, decimal_seq(index as nat)))
            } else {
                None
            },
        }
    }

    /// Records the vote of `voter` for the option at `index` of an open
    /// choice poll. A voter who votes again for the option they hold takes
    /// their vote back: they have no reply afterwards. Any other vote
    /// replaces the voter's reply.
    ///
    /// The result says whether the vote stands (`true`) or was taken back
    /// (`false`). The owner cannot vote; a poll that is not open, is of
    /// another kind or has no such option refuses the vote and stays as it
    /// is.
    pub fn vote(&mut self, voter: u64, index: usize) -> (r: Result<bool>)
        ensures
            match old(self).vote_refusal(voter, index) {
                Some(e) => r matches Err(got) && got@ == e && *final(self) == *old(self),
                None => {
                    let held = old(self).replies@.contains_key(voter) && old(self).replies@[voter]
                        == Reply::Choice(index);
                    &&& same_but_replies(&*final(self), &*old(self))
                    &&& r == Ok::<bool, Error>(!held)
                    &&& held ==> final(self).replies@ == old(self).replies@.remove(voter)
                    &&& held ==> !final(self).replies@.contains_key(voter)
                    &&& !held ==> final(self).replies@ == old(self).replies@.insert(
                        voter,
                        Reply::Choice(index),
                    )
                },
            },
            old(self).wf() ==> final(self).wf(),
            final(self).stage_spec() == old(self).stage_spec(),
    {
        self.check_reply(voter, Kind::Choice, "You cannot respond to your own poll")?;
        if index >= self.inputs.len() {
            return Err(Error::InvalidId(Value::Data, decimal(index as u64)));
        }
        let held = match self.replies.get(&voter) {
            Some(Reply::Choice(picked)) => *picked == index,
            _ => false,
        };
        if held {
            self.replies.remove(&voter);
            Ok(false)
        } else {
            self.replies.insert(voter, Reply::Choice(index));
            Ok(true)
        }
    }

    /// Enters `voter` into an open raffle, or takes them out of it if they
    /// are in. The result says whether they are in afterwards. The owner
    /// cannot enter; a poll that is not open or is no raffle refuses and
    /// stays as it is.
    pub fn enter_raffle(&mut self, voter: u64) -> (r: Result<bool>)
        ensures
            match old(self).reply_refusal(
                voter,
                Kind::Raffle,
                "You cannot respond to your own form",
            ) {
                Some(e) => r matches Err(got) && got@ == e && *final(self) == *old(self),
                None => {
                    let held = old(self).replies@.contains_key(voter);
                    &&& same_but_replies(&*final(self), &*old(self))
                    &&& r == Ok::<bool, Error>(!held)
                    &&& held ==> final(self).replies@ == old(self).replies@.remove(voter)
                    &&& !held ==> final(self).replies@ == old(self).replies@.insert(
                        voter,
                        Reply::Raffle,
                    )
                },
            },
            old(self).wf() ==> final(self).wf(),
            final(self).stage_spec() == old(self).stage_spec(),
    {
        self.check_reply(voter, Kind::Raffle, "You cannot respond to your own form")?;
        if self.replies.contains_key(&voter) {
            self.replies.remove(&voter);
            Ok(false)
        } else {
            self.replies.insert(voter, Reply::Raffle);
            Ok(true)
        }
    }

    /// Records the written answers of `voter` to an open response poll, in
    /// place of what they answered before. The owner cannot answer; a poll
    /// that is not open or is of another kind refuses and stays as it is.
    pub fn respond(&mut self, voter: u64, answers: Vec<String>) -> (r: Result<()>)
        ensures
            match old(self).reply_refusal(
                voter,
                Kind::Response,
                "You cannot respond to your own form",
            ) {
                Some(e) => r matches Err(got) && got@ == e && *final(self) == *old(self),
                None => {
                    &&& same_but_replies(&*final(self), &*old(self))
                    &&& r == Ok::<(), Error>(())
                    &&& final(self).replies@ == old(self).replies@.insert(
                        voter,
                        Reply::Response(answers),
                    )
                },
            },
            old(self).wf() ==> final(self).wf(),
            final(self).stage_spec() == old(self).stage_spec(),
    {
        self.check_reply(voter, Kind::Response, "You cannot respond to your own form")?;
        self.replies.insert(voter, Reply::Response(answers));
        Ok(())
    }

    /// Why the poll cannot be closed, if it cannot: it was never sent, or
    /// it is closed already.
    pub open spec fn close_refusal(&self) -> Option<Error> {
        if self.anchor is None {
            Some(Error::Other("The poll has not been sent"))
        } else if self.output is Some {
            Some(Error::Other("The poll has already been closed"))
        } else {
            None
        }
    }

    /// Closes an open poll: the results are computed from the replies it
    /// holds, once and for all.
    ///
    /// A poll that was never sent, or is closed already, is refused; so a
    /// closed poll cannot be closed a second time. On success the result
    /// holds the poll with its results, the entry to strike from the list of
    /// open polls, the key under which to keep the closed poll, the key of
    /// the open poll, which is to be removed, and the card.
    pub fn close(self) -> (r: Result<Closed>)
        ensures
            match self.close_refusal() {
                Some(e) => r == Err::<Closed, Error>(e),
                None => {
                    &&& r matches Ok(closed)
                    &&& closed.form.user == self.user
                    &&& closed.form.kind == self.kind
                    &&& closed.form.content == self.content
                    &&& closed.form.inputs == self.inputs
                    &&& closed.form.replies == self.replies
                    &&& closed.form.anchor == self.anchor
                    &&& closed.form.output matches Some(output) && output.is_output_of(
                        self.kind,
                        self.inputs@,
                        self.replies@,
                    )
                    &&& closed.form.close_refusal() == Some(
                        Error::Other("The poll has already been closed"),
                    )
                    &&& closed.form.close_refusal().unwrap()@.category()
                        == Category::Precondition
                    &&& closed.card == self.anchor.unwrap()
                    &&& closed.entry == (closed.card.guild, self.user)
                    &&& self.stage_spec() == Stage::Active
                    &&& closed.form.stage_spec() == Stage::Closed
                    &&& closed.archive@ == archive_req(
                        closed.card.guild,
                        self.user,
                        closed.card.message,
                    )
                    &&& closed.draft@ == form_req(closed.card.guild, self.user)
                    &&& self.wf() ==> closed.form.wf()
                },
            },
    {
        let card = match self.anchor {
            Some(anchor) => anchor,
            None => {
                return Err(Error::Other("The poll has not been sent"));
            },
        };
        if self.output.is_some() {
            return Err(Error::Other("The poll has already been closed"));
        }
        let mut form = self;
        let output = Output::new(&form);
        form.output = Some(output);
        let archive = <Form as NewReq<(u64, u64, u64)>>::new_req(
            (card.guild, form.user, card.message),
        );
        let draft = <Form as NewReq<(u64, u64)>>::new_req((card.guild, form.user));
        let entry = (card.guild, form.user);
        Ok(Closed { form, entry, archive, draft, card })
    }

    /// The results of the poll. They are computed from the replies the
    /// first time they are asked for, and never again.
    pub fn output(&mut self) -> (output: &Output)
        ensures
            old(self).output is Some ==> *final(self) == *old(self),
            old(self).output is None ==> {
                &&& final(self).user == old(self).user
                &&& final(self).kind == old(self).kind
                &&& final(self).content == old(self).content
                &&& final(self).inputs == old(self).inputs
                &&& final(self).replies == old(self).replies
                &&& final(self).anchor == old(self).anchor
                &&& final(self).output matches Some(made) && made.is_output_of(
                    old(self).kind,
                    old(self).inputs@,
                    old(self).replies@,
                )
            },
            final(self).output == Some(*output),
    {
        if self.output.is_none() {
            let made = Output::new(self);
            self.output = Some(made);
        }
        self.output.as_ref().unwrap()
    }

    /// When the poll closes, counted from `start`.
    pub open spec fn deadline(&self, start: int) -> int {
        start + self.content.hours * 3_600_000
    }

    /// When the poll closes: its duration after it was sent, or after
    /// `now` while it is a draft.
    pub fn closes_at_from(&self, now: i64) -> (time: TimeString)
        requires
            self.content.wf(),
            self.anchor matches Some(anchor) ==> anchor.wf(),
            -0x20_0000_0000_0000 < now < 0x20_0000_0000_0000,
        ensures
            time.1 is None,
            time.0 == self.deadline(
                match self.anchor {
                    Some(anchor) => created_millis(anchor.message),
                    None => now as int,
                },
            ),
    {
        let ms = self.content.hours * 60 * 60 * 1000;
        let base = match self.anchor {
            Some(anchor) => {
                proof {
                    lemma_created_millis_bounds(anchor.message);
                }
                anchor.created_at()
            },
            None => now,
        };
        TimeString::new(base + ms)
    }

    /// When the poll closes: its duration after it was sent, or after the
    /// present moment while it is a draft.
    pub fn closes_at(&self) -> (time: TimeString)
        requires
            self.content.wf(),
            self.anchor matches Some(anchor) ==> anchor.wf(),
        ensures
            time.1 is None,
            self.anchor matches Some(anchor) ==> time.0 == self.deadline(
                created_millis(anchor.message),
            ),
            exists|now: int|
                -0x20_0000_0000_0000 < now < 0x20_0000_0000_0000 && time.0 == self.closing(now),
    {
        let now = now_millis();
        let time = self.closes_at_from(now);
        assert(-0x20_0000_0000_0000 < now < 0x20_0000_0000_0000 && time.0 == self.closing(
            now as int,
        ));
        time
    }

    /// The text of the poll's card.
    pub open spec fn card_text(&self, closes: int) -> Seq<char> {
        "**Type:** "@ + self.kind.label() + "\n"@ + "**Closes:** "@ + TimeString(
            closes as i64,
            None,
        ).markup() + "\n\n"@ + (if self.content.hide_members {
            "*Members are hidden*"@
        } else {
            "*Members are shown*"@
        }) + "\n"@ + (if self.content.hide_results {
            "*Results are hidden*"@
        } else {
            "*Results are shown*"@
        }) + "\n\n> "@ + self.content.description@
    }

    /// The poll's card when the poll closes at the moment `closes`.
    pub open spec fn card(&self, owner: &UserProfile, closes: int) -> EmbedView {
        EmbedView {
            author: Some(owner.author_spec()),
            color: Some(owner.colour_spec()),
            description: Some(self.card_text(closes)),
            image: self.content.image.deep_view(),
            thumbnail: Some(owner.face@),
            title: Some(self.content.title@),
            ..blank_embed()
        }
    }

    /// When the poll closes if the present moment is `now`.
    pub open spec fn closing(&self, now: int) -> int {
        self.deadline(
            match self.anchor {
                Some(anchor) => created_millis(anchor.message),
                None => now,
            },
        )
    }

    /// The poll's card, `now` being the present moment: the kind of the
    /// poll, when it closes, whether members and results are shown, and
    /// the description, under the owner's name and in their colour.
    pub fn as_embed_at(&self, owner: &UserProfile, now: i64) -> (embed: Embed)
        requires
            self.content.wf(),
            self.anchor matches Some(anchor) ==> anchor.wf(),
            -0x20_0000_0000_0000 < now < 0x20_0000_0000_0000,
        ensures
            embed@ == self.card(owner, self.closing(now as int)),
    {
        let closes = self.closes_at_from(now);
        let mut text = String::from_str("**Type:** ");
        text.append(self.kind.to_string().as_str());
        text.append("\n");
        text.append("**Closes:** ");
        text.append(closes.to_string().as_str());
        text.append("\n\n");
        if self.content.hide_members {
            text.append("*Members are hidden*");
        } else {
            text.append("*Members are shown*");
        }
        text.append("\n");
        if self.content.hide_results {
            text.append("*Results are hidden*");
        } else {
            text.append("*Results are shown*");
        }
        text.append("\n\n> ");
        text.append(self.content.description.as_str());
        assert(closes == TimeString(self.closing(now as int) as i64, None));
        let embed = Embed::new().author(owner.as_author()).color(owner.colour()).description(
            text.as_str(),
        ).thumbnail(owner.face.as_str()).title(self.content.title.as_str());
        match &self.content.image {
            Some(link) => embed.image(link.as_str()),
            None => embed,
        }
    }

    /// The poll's card at the present moment.
    pub fn as_embed(&self, owner: &UserProfile) -> (embed: Embed)
        requires
            self.content.wf(),
            self.anchor matches Some(anchor) ==> anchor.wf(),
        ensures
            exists|now: int| embed@ == self.card(owner, self.closing(now)),
    {
        let now = now_millis();
        let embed = self.as_embed_at(owner, now);
        assert(embed@ == self.card(owner, self.closing(now as int)));
        embed
    }

    /// The message that shows the poll: its card and its buttons.
    pub fn as_message(&self, owner: &UserProfile, disabled: bool) -> (message: Message)
        requires
            self.content.wf(),
            self.anchor matches Some(anchor) ==> anchor.wf(),
        ensures
            exists|now: int|
                message@ == (MessageView {
                    embed: Some(self.card(owner, self.closing(now))),
                    buttons: self.buttons(disabled),
                    ephemeral: false,
                }),
    {
        let now = now_millis();
        let embed = self.as_embed_at(owner, now);
        let message = Message::new().embed(embed).buttons(self.as_buttons(disabled, ()));
        assert(message@ == (MessageView {
            embed: Some(self.card(owner, self.closing(now as int))),
            buttons: self.buttons(disabled),
            ephemeral: false,
        }));
        message
    }

    /// Whether the time of an open poll is up at the moment `now`: its
    /// duration has passed since it was sent.
    pub fn is_due(&self, now: i64) -> (due: bool)
        requires
            self.anchor matches Some(anchor) && anchor.message != 0,
        ensures
            due == (now >= self.deadline(created_millis(self.anchor.unwrap().message))),
    {
        let anchor = self.anchor.unwrap();
        proof {
            lemma_created_millis_bounds(anchor.message);
        }
        let sent = anchor.created_at() as i128;
        let duration = (self.content.hours as i128) * 3_600_000;
        (now as i128) >= sent + duration
    }
}

/// The buttons of the first `upto` inputs of a choice poll: one for each
/// option, which carries the owner and the option's position.
pub open spec fn choice_buttons(inputs: Seq<Input>, disabled: bool, user: u64, upto: int) -> Seq<
    ButtonView,
>
    decreases upto,
{
    if upto <= 0 {
        Seq::empty()
    } else {
        let front = choice_buttons(inputs, disabled, user, upto - 1);
        match inputs[upto - 1] {
            Input::Choice(data) => front.push(data.button(disabled, user, (upto - 1) as usize)),
            Input::Response(_) => front,
        }
    }
}

/// The buttons that remove the first `upto` inputs of a draft: one for
/// each input, labelled like it, which carries the owner and the input's
/// position.
pub open spec fn remove_buttons(inputs: Seq<Input>, disabled: bool, user: u64, upto: int) -> Seq<
    ButtonView,
>
    decreases upto,
{
    if upto <= 0 {
        Seq::empty()
    } else {
        remove_buttons(inputs, disabled, user, upto - 1).push(
            ButtonView {
                custom_id: encode(
                    BUTTON_REMOVE@,
                    seq![decimal_seq(user as nat), decimal_seq((upto - 1) as nat)],
                ),
                disabled,
                emoji: None,
                label: Some(inputs[upto - 1].label_spec()),
                style: ButtonStyle::Danger,
            },
        )
    }
}

/// The text fields of the first `upto` inputs of a response poll: one for
/// each question, named by its position.
pub open spec fn question_fields(inputs: Seq<Input>, upto: int) -> Seq<TextInputView>
    decreases upto,
{
    if upto <= 0 {
        Seq::empty()
    } else {
        let front = question_fields(inputs, upto - 1);
        match inputs[upto - 1] {
            Input::Response(data) => front.push(data.text_input((upto - 1) as usize)),
            Input::Choice(_) => front,
        }
    }
}

impl Form {
    /// A button with one argument: the poll's owner.
    pub open spec fn owner_button(
        &self,
        name: Seq<char>,
        disabled: bool,
        emoji: char,
        label: Seq<char>,
    ) -> ButtonView {
        ButtonView {
            custom_id: encode(name, seq![decimal_seq(self.user as nat)]),
            disabled,
            emoji: Some(EmojiView::Unicode(seq![emoji])),
            label: Some(label),
            style: ButtonStyle::Primary,
        }
    }

    /// The buttons of the poll's card: one for each option of a choice
    /// poll, up to ten; one to answer a response poll; one to enter a
    /// raffle.
    pub open spec fn buttons(&self, disabled: bool) -> Seq<ButtonView> {
        match self.kind {
            Kind::Choice => choice_buttons(
                self.inputs@,
                disabled,
                self.user,
                at_most(self.inputs.len() as int, 10),
            ),
            Kind::Response => seq![
                self.owner_button(BUTTON_RESPONSE@, disabled, '📩', "Submit Response"@),
            ],
            Kind::Raffle => seq![
                self.owner_button(BUTTON_RAFFLE@, disabled, '🎲', "Enter Raffle"@),
            ],
        }
    }

    fn as_buttons_choice(&self, disabled: bool) -> (buttons: Vec<Button>)
        ensures
            buttons.deep_view() == choice_buttons(
                self.inputs@,
                disabled,
                self.user,
                at_most(self.inputs.len() as int, 10),
            ),
    {
        let count = Input::max_count(Kind::Choice);
        let mut buttons: Vec<Button> = Vec::new();
        let mut index: usize = 0;
        assert(buttons.deep_view() == Seq::<ButtonView>::empty());
        while index < self.inputs.len() && index < count
            invariant
                index <= self.inputs.len(),
                index <= count,
                count == 10,
                buttons.deep_view() == choice_buttons(
                    self.inputs@,
                    disabled,
                    self.user,
                    index as int,
                ),
            decreases self.inputs.len() - index,
        {
            let ghost before = buttons.deep_view();
            match &self.inputs[index] {
                Input::Choice(data) => {
                    let button = data.as_button(disabled, (self.user, index));
                    buttons.push(button);
                    assert(buttons.deep_view() == before.push(
                        data.button(disabled, self.user, index),
                    ));
                },
                Input::Response(_) => {},
            }
            index += 1;
        }
        buttons
    }

    fn as_owner_button(&self, name: &str, disabled: bool, emoji: char, label: &str) -> (buttons:
        Vec<Button>)
        ensures
            buttons.deep_view() == seq![self.owner_button(name@, disabled, emoji, label@)],
    {
        let button = Button::new(CustomId::new(name).arg_number(self.user).to_string()).disabled(
            disabled,
        ).emoji(emoji).label(label).style(ButtonStyle::Primary);
        let mut buttons: Vec<Button> = Vec::new();
        buttons.push(button);
        proof {
            let empty = Seq::<Seq<char>>::empty();
            assert(empty.push(decimal_seq(self.user as nat)) == seq![decimal_seq(self.user as nat)]);
            assert(buttons.deep_view() == seq![self.owner_button(name@, disabled, emoji, label@)]);
        }
        buttons
    }


    /// The buttons with which the owner removes inputs from a draft: one
    /// for each input.
    pub fn as_remove_buttons(&self, disabled: bool) -> (buttons: Vec<Button>)
        ensures
            buttons.deep_view() == remove_buttons(
                self.inputs@,
                disabled,
                self.user,
                self.inputs.len() as int,
            ),
    {
        let mut buttons: Vec<Button> = Vec::new();
        let mut index: usize = 0;
        assert(buttons.deep_view() == Seq::<ButtonView>::empty());
        while index < self.inputs.len()
            invariant
                index <= self.inputs.len(),
                buttons.deep_view() == remove_buttons(
                    self.inputs@,
                    disabled,
                    self.user,
                    index as int,
                ),
            decreases self.inputs.len() - index,
        {
            let ghost before = buttons.deep_view();
            let custom_id = CustomId::new(BUTTON_REMOVE).arg_number(self.user).arg_number(
                index as u64,
            );
            let button = Button::new(custom_id.to_string()).disabled(disabled).label(
                self.inputs[index].label(),
            ).style(ButtonStyle::Danger);
            proof {
                let empty = Seq::<Seq<char>>::empty();
                assert(empty.push(decimal_seq(self.user as nat)).push(decimal_seq(index as nat))
                    == seq![decimal_seq(self.user as nat), decimal_seq(index as nat)]);
            }
            let ghost view = button@;
            buttons.push(button);
            assert(buttons.deep_view() == before.push(view));
            index += 1;
        }
        buttons
    }

    /// The embed above the buttons that remove inputs.
    pub fn as_remove_embed(&self) -> (embed: Embed)
        ensures
            embed@ == (EmbedView {
                color: Some(BOT_COLOR),
                title: Some("Remove Inputs"@),
                ..blank_embed()
            }),
    {
        Embed::new().color(BOT_COLOR).title("Remove Inputs")
    }

    /// The message with which the owner removes inputs from a draft: one
    /// button for each input, for the owner's eyes only.
    pub fn as_remove_message(&self, disabled: bool) -> (message: Message)
        ensures
            message@ == (MessageView {
                embed: Some(
                    EmbedView {
                        color: Some(BOT_COLOR),
                        title: Some("Remove Inputs"@),
                        ..blank_embed()
                    },
                ),
                buttons: remove_buttons(
                    self.inputs@,
                    disabled,
                    self.user,
                    self.inputs.len() as int,
                ),
                ephemeral: true,
            }),
    {
        Message::new().embed(self.as_remove_embed()).buttons(
            self.as_remove_buttons(disabled),
        ).ephemeral(true)
    }

    /// The embed that announces the results of the poll of `owner`.
    pub open spec fn results_embed(&self, owner: &UserProfile) -> EmbedView {
        EmbedView {
            color: Some(
                match owner.accent_colour {
                    Some(colour) => colour,
                    None => BOT_COLOR,
                },
            ),
            title: Some("Poll Results"@),
            url: match self.anchor {
                Some(anchor) => Some(anchor.url()),
                None => None,
            },
            footer: if self.content.hide_results {
                Some(
                    EmbedFooterView {
                        text: "Results are only visible to the poll author!"@,
                        icon_url: None,
                    },
                )
            } else {
                None
            },
            ..blank_embed()
        }
    }

    /// The embed that announces the results: in the owner's colour, with
    /// a link to the poll's card, and with a note if the results are
    /// private. `owner` is the profile of the poll's owner.
    pub fn as_results_embed(&self, owner: &UserProfile) -> (embed: Embed)
        ensures
            embed@ == self.results_embed(owner),
    {
        let colour = match owner.accent_colour {
            Some(colour) => colour,
            None => BOT_COLOR,
        };
        let embed = Embed::new().color(colour).title("Poll Results");
        let embed = match self.anchor {
            Some(anchor) => embed.url(anchor.to_string().as_str()),
            None => embed,
        };
        if self.content.hide_results {
            embed.footer(EmbedFooter::new("Results are only visible to the poll author!"))
        } else {
            embed
        }
    }

    /// The message that announces the results of a poll that was sent,
    /// with the button that opens them.
    pub fn as_results_message(&self, owner: &UserProfile, disabled: bool) -> (r: Result<Message>)
        ensures
            match self.anchor {
                None => r == Err::<Message, Error>(Error::MissingValue(Value::Anchor)),
                Some(anchor) => r matches Ok(message) && message@ == (MessageView {
                    embed: Some(self.results_embed(owner)),
                    buttons: seq![self.results_button(disabled, anchor.message)],
                    ephemeral: false,
                }),
            },
    {
        let anchor = match self.anchor {
            Some(anchor) => anchor,
            None => {
                return Err(Error::MissingValue(Value::Anchor));
            },
        };
        Ok(
            Message::new().embed(self.as_results_embed(owner)).buttons(
                self.as_results_buttons(disabled, anchor.message),
            ),
        )
    }

    /// The button below the message that announces the results.
    pub open spec fn results_button(&self, disabled: bool, message: u64) -> ButtonView {
        ButtonView {
            custom_id: encode(
                BUTTON_RESULTS@,
                seq![decimal_seq(self.user as nat), decimal_seq(message as nat)],
            ),
            disabled,
            emoji: Some(EmojiView::Unicode(seq!['📊'])),
            label: Some("View Results"@),
            style: ButtonStyle::Primary,
        }
    }

    /// The button that opens the results of the closed poll that was
    /// posted as `message`. It carries the owner and the message.
    pub fn as_results_buttons(&self, disabled: bool, message: u64) -> (buttons: Vec<Button>)
        ensures
            buttons.deep_view() == seq![self.results_button(disabled, message)],
    {
        let custom_id = CustomId::new(BUTTON_RESULTS).arg_number(self.user).arg_number(message);
        let button = Button::new(custom_id.to_string()).disabled(disabled).emoji('📊').label(
            "View Results",
        ).style(ButtonStyle::Primary);
        let mut buttons: Vec<Button> = Vec::new();
        buttons.push(button);
        proof {
            let empty = Seq::<Seq<char>>::empty();
            assert(empty.push(decimal_seq(self.user as nat)).push(decimal_seq(message as nat))
                == seq![decimal_seq(self.user as nat), decimal_seq(message as nat)]);
            assert(buttons.deep_view() == seq![self.results_button(disabled, message)]);
        }
        buttons
    }

    /// Why the poll has no modal, if it has none: it is no response poll,
    /// or it asks nothing.
    pub open spec fn modal_refusal(&self) -> Option<ErrorView> {
        if self.kind != Kind::Response {
            Some(ErrorView::InvalidValue(Value::Data, self.kind.label()))
        } else if self.inputs.len() == 0 {
            Some(ErrorView::Other("You must provide at least one input"))
        } else {
            None
        }
    }

    /// The modal of a response poll.
    pub open spec fn modal(&self) -> ModalView {
        ModalView {
            custom_id: encode(MODAL_SUBMIT@, seq![decimal_seq(self.user as nat)]),
            title: "Submit Response"@,
            inputs: question_fields(self.inputs@, at_most(self.inputs.len() as int, 5)),
        }
    }

}

impl Anchored for Form {
    open spec fn anchor_spec(&self) -> Option<Anchor> {
        self.anchor
    }

    fn anchor(&self) -> (r: Result<Anchor>) {
        anchor_or_missing(self.anchor)
    }
}

impl NewReq<(u64, u64)> for Form {
    open spec fn req_spec(args: (u64, u64)) -> ReqView {
        form_req(args.0, args.1)
    }

    /// The key of the draft or open poll of the user `args.1` in the guild
    /// `args.0`.
    fn new_req(args: (u64, u64)) -> (req: Req<Self>) {
        Req::new(guild_dir(args.0).as_str(), decimal(args.1).as_str())
    }
}

impl NewReq<(u64, u64, u64)> for Form {
    open spec fn req_spec(args: (u64, u64, u64)) -> ReqView {
        archive_req(args.0, args.1, args.2)
    }

    /// The key of the closed poll of the user `args.1` in the guild
    /// `args.0` that was posted as the message `args.2`.
    fn new_req(args: (u64, u64, u64)) -> (req: Req<Self>) {
        let mut dir = guild_dir(args.0);
        let ghost base = dir@;
        push_char(&mut dir, '/');
        assert(dir@ == base + seq!['/']);
        dir.append(decimal(args.1).as_str());
        Req::new(dir.as_str(), decimal(args.2).as_str())
    }
}

impl AsReq<u64> for Form {
    open spec fn as_req_spec(&self, guild: u64) -> ReqView {
        form_req(guild, self.user)
    }

    fn as_req(&self, guild: u64) -> (req: Req<Self>) {
        <Form as NewReq<(u64, u64)>>::new_req((guild, self.user))
    }
}

impl AsReq<(u64, u64)> for Form {
    open spec fn as_req_spec(&self, args: (u64, u64)) -> ReqView {
        archive_req(args.0, self.user, args.1)
    }

    fn as_req(&self, args: (u64, u64)) -> (req: Req<Self>) {
        <Form as NewReq<(u64, u64, u64)>>::new_req((args.0, self.user, args.1))
    }
}

impl AsButtonVec<()> for Form {
    open spec fn buttons_view(&self, disabled: bool, args: ()) -> Seq<ButtonView> {
        self.buttons(disabled)
    }

    /// The buttons of the poll's card.
    fn as_buttons(&self, disabled: bool, args: ()) -> (buttons: Vec<Button>) {
        match self.kind {
            Kind::Choice => self.as_buttons_choice(disabled),
            Kind::Response => self.as_owner_button(
                BUTTON_RESPONSE,
                disabled,
                '📩',
                "Submit Response",
            ),
            Kind::Raffle => self.as_owner_button(BUTTON_RAFFLE, disabled, '🎲', "Enter Raffle"),
        }
    }
}

impl TryAsModal<()> for Form {
    open spec fn try_modal(&self, args: ()) -> core::result::Result<ModalView, ErrorView> {
        match self.modal_refusal() {
            Some(e) => Err(e),
            None => Ok(self.modal()),
        }
    }

    /// The modal in which a voter answers a response poll: one text field
    /// for each question, up to five. Its identifier carries the owner.
    fn try_as_modal(&self, args: ()) -> (r: Result<Modal>) {
        if self.kind != Kind::Response {
            return Err(Error::InvalidValue(Value::Data, self.kind.to_string()));
        }
        if self.inputs.len() == 0 {
            return Err(Error::Other("You must provide at least one input"));
        }
        let count = Input::max_count(Kind::Response);
        let custom_id = CustomId::new(MODAL_SUBMIT).arg_number(self.user);
        let mut inputs: Vec<TextInput> = Vec::new();
        let mut index: usize = 0;
        assert(inputs.deep_view() == Seq::<TextInputView>::empty());
        while index < self.inputs.len() && index < count
            invariant
                index <= self.inputs.len(),
                index <= count,
                count == 5,
                inputs.deep_view() == question_fields(self.inputs@, index as int),
            decreases self.inputs.len() - index,
        {
            let ghost before = inputs.deep_view();
            match &self.inputs[index] {
                Input::Response(data) => {
                    inputs.push(data.as_input_text(index));
                    assert(inputs.deep_view() == before.push(data.text_input(index)));
                },
                Input::Choice(_) => {},
            }
            index += 1;
        }
        proof {
            let empty = Seq::<Seq<char>>::empty();
            assert(empty.push(decimal_seq(self.user as nat)) == seq![decimal_seq(self.user as nat)]);
        }
        Ok(
            Modal {
                custom_id: custom_id.to_string(),
                title: String::from_str("Submit Response"),
                inputs,
            },
        )
    }
}

} // verus!
