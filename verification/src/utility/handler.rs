//! The path of one interaction: it is classified, its routing key is
//! looked up among the commands, the command's handler runs, and whatever
//! went wrong is told to the user in a single reply that only they see.

use vstd::prelude::*;
use vstd::string::*;

use crate::command::apply;
use crate::command::data;
use crate::command::embed;
use crate::command::help;
use crate::command::offer;
use crate::command::oracle;
use crate::command::ping;
use crate::command::poll;
use crate::command::quote;
use crate::command::role;
use crate::utility::custom_id::decode;
use crate::utility::custom_id::CustomId;
use crate::utility::platform::blank_embed;
use crate::utility::platform::CommandSchema;
use crate::utility::platform::Embed;
use crate::utility::platform::EmbedView;
use crate::utility::platform::Message;
use crate::utility::platform::MessageView;
use crate::utility::text::decimal;
use crate::utility::text::decimal_seq;
use crate::utility::text::push_char;
use crate::utility::text::same_text;
use crate::utility::Error;
use crate::utility::ErrorView;
use crate::utility::Result;
use crate::utility::Value;
use crate::utility::BOT_COLOR;

verus! {

/// The commands of the bot: the keys of the routing tables.
#[derive(Clone, Copy, Debug, PartialEq, Eq, Structural)]
pub enum Command {
    Apply,
    Data,
    Embed,
    Help,
    Offer,
    Oracle,
    Ping,
    Poll,
    Quote,
    Role,
}

impl Command {
    /// The name under which the command is registered.
    pub open spec fn name_spec(self) -> Seq<char> {
        match self {
            Command::Apply => apply::NAME@,
            Command::Data => data::NAME@,
            Command::Embed => embed::NAME@,
            Command::Help => help::NAME@,
            Command::Offer => offer::NAME@,
            Command::Oracle => oracle::NAME@,
            Command::Ping => ping::NAME@,
            Command::Poll => poll::NAME@,
            Command::Quote => quote::NAME@,
            Command::Role => role::NAME@,
        }
    }

    /// The name under which the command is registered.
    pub fn name(self) -> (name: &'static str)
        ensures
            name@ == self.name_spec(),
    {
        match self {
            Command::Apply => apply::NAME,
            Command::Data => data::NAME,
            Command::Embed => embed::NAME,
            Command::Help => help::NAME,
            Command::Offer => offer::NAME,
            Command::Oracle => oracle::NAME,
            Command::Ping => ping::NAME,
            Command::Poll => poll::NAME,
            Command::Quote => quote::NAME,
            Command::Role => role::NAME,
        }
    }

    /// The command registered under `key`, if there is one.
    pub open spec fn named(key: Seq<char>) -> Option<Command> {
        if key == apply::NAME@ {
            Some(Command::Apply)
        } else if key == data::NAME@ {
            Some(Command::Data)
        } else if key == embed::NAME@ {
            Some(Command::Embed)
        } else if key == help::NAME@ {
            Some(Command::Help)
        } else if key == offer::NAME@ {
            Some(Command::Offer)
        } else if key == oracle::NAME@ {
            Some(Command::Oracle)
        } else if key == ping::NAME@ {
            Some(Command::Ping)
        } else if key == poll::NAME@ {
            Some(Command::Poll)
        } else if key == quote::NAME@ {
            Some(Command::Quote)
        } else if key == role::NAME@ {
            Some(Command::Role)
        } else {
            None
        }
    }

    /// Looks a key up in the table of commands.
    pub fn from_name(key: &str) -> (command: Option<Command>)
        ensures
            command == Self::named(key@),
    {
        if same_text(key, apply::NAME) {
            Some(Command::Apply)
        } else if same_text(key, data::NAME) {
            Some(Command::Data)
        } else if same_text(key, embed::NAME) {
            Some(Command::Embed)
        } else if same_text(key, help::NAME) {
            Some(Command::Help)
        } else if same_text(key, offer::NAME) {
            Some(Command::Offer)
        } else if same_text(key, oracle::NAME) {
            Some(Command::Oracle)
        } else if same_text(key, ping::NAME) {
            Some(Command::Ping)
        } else if same_text(key, poll::NAME) {
            Some(Command::Poll)
        } else if same_text(key, quote::NAME) {
            Some(Command::Quote)
        } else if same_text(key, role::NAME) {
            Some(Command::Role)
        } else {
            None
        }
    }

    /// Whether the command handles presses of buttons.
    pub open spec fn has_components(self) -> bool {
        self == Command::Apply || self == Command::Poll || self == Command::Role
    }

    /// Whether the command handles submitted modals.
    pub open spec fn has_modals(self) -> bool {
        self == Command::Apply || self == Command::Poll
    }

    /// Every command is found under its own name.
    pub proof fn lemma_named_name(self)
        ensures
            Self::named(self.name_spec()) == Some(self),
    {
        reveal_strlit("apply");
        reveal_strlit("data");
        reveal_strlit("embed");
        reveal_strlit("help");
        reveal_strlit("offer");
        reveal_strlit("oracle");
        reveal_strlit("ping");
        reveal_strlit("poll");
        reveal_strlit("quote");
        reveal_strlit("role");
        assert(apply::NAME@[0] == 'a' && data::NAME@[0] == 'd' && embed::NAME@[0] == 'e'
            && help::NAME@[0] == 'h' && offer::NAME@[0] == 'o' && oracle::NAME@[0] == 'o'
            && ping::NAME@[0] == 'p' && poll::NAME@[0] == 'p' && quote::NAME@[0] == 'q'
            && role::NAME@[0] == 'r');
        assert(offer::NAME@[1] == 'f' && oracle::NAME@[1] == 'r');
        assert(ping::NAME@[1] == 'i' && poll::NAME@[1] == 'o');
    }
}

/// The commands that the bot registers with the platform, in the order of
/// [`Command`]. Each is registered under the name that routes to it.
pub fn create_commands() -> (commands: Vec<CommandSchema>)
    ensures
        commands@.len() == 10,
        commands@[0].name@ == Command::Apply.name_spec(),
        commands@[1].name@ == Command::Data.name_spec(),
        commands@[2].name@ == Command::Embed.name_spec(),
        commands@[3].name@ == Command::Help.name_spec(),
        commands@[4].name@ == Command::Offer.name_spec(),
        commands@[5].name@ == Command::Oracle.name_spec(),
        commands@[6].name@ == Command::Ping.name_spec(),
        commands@[7].name@ == Command::Poll.name_spec(),
        commands@[8].name@ == Command::Quote.name_spec(),
        commands@[9].name@ == Command::Role.name_spec(),
{
    let mut commands: Vec<CommandSchema> = Vec::new();
    commands.push(apply::new());
    commands.push(data::new());
    commands.push(embed::new());
    commands.push(help::new());
    commands.push(offer::new());
    commands.push(oracle::new());
    commands.push(ping::new());
    commands.push(poll::new());
    commands.push(quote::new());
    commands.push(role::new());
    commands
}

/// How the bot shows itself to be there.
#[derive(Clone, Copy, Debug, PartialEq, Eq, Structural)]
pub enum OnlineStatus {
    Idle,
    DoNotDisturb,
}

/// What the bot appears to be doing.
#[derive(Clone, Copy, Debug, PartialEq, Eq, Structural)]
pub enum ActivityKind {
    Listening,
    Watching,
}

/// The presence of the bot.
#[derive(Clone, Copy, Debug)]
pub struct Presence {
    pub status: OnlineStatus,
    pub kind: ActivityKind,
    pub name: &'static str,
}

/// The presence of the bot: during development it idles and listens to
/// events; otherwise it is not to be disturbed while it watches.
pub fn presence(is_dev: bool) -> (presence: Presence)
    ensures
        presence == (if is_dev {
            Presence {
                status: OnlineStatus::Idle,
                kind: ActivityKind::Listening,
                name: "API events",
            }
        } else {
            Presence {
                status: OnlineStatus::DoNotDisturb,
                kind: ActivityKind::Watching,
                name: "my employees",
            }
        }),
{
    if is_dev {
        Presence { status: OnlineStatus::Idle, kind: ActivityKind::Listening, name: "API events" }
    } else {
        Presence {
            status: OnlineStatus::DoNotDisturb,
            kind: ActivityKind::Watching,
            name: "my employees",
        }
    }
}

/// Where the commands are registered when the bot starts.
#[derive(Clone, Copy, Debug, PartialEq, Eq, Structural)]
pub struct Registration {
    /// Whether the commands are registered for every guild; they are only
    /// counted otherwise.
    pub global: bool,
    /// Whether the commands are registered in the development guild; they
    /// are only counted otherwise.
    pub guild: bool,
}

/// Where the commands are registered: in the development guild during
/// development, and for every guild otherwise.
pub fn registration(is_dev: bool) -> (plan: Registration)
    ensures
        plan == (Registration { global: !is_dev, guild: is_dev }),
{
    Registration { global: !is_dev, guild: is_dev }
}

/// One event from the platform.
#[derive(Debug)]
pub enum Interaction {
    /// A request for suggestions while a command is typed.
    Autocomplete { name: String, id: u64 },
    /// A slash command.
    Command { name: String, id: u64 },
    /// A press of a button, or a choice in a menu.
    Component { custom_id: String, id: u64 },
    /// A submitted modal.
    Modal { custom_id: String, id: u64 },
    /// A sign of life.
    Ping { token: String, id: u64 },
}

/// The handler that an interaction is routed to.
#[derive(Clone, Copy, Debug, PartialEq, Eq, Structural)]
pub enum Route {
    Command(Command),
    Component(Command),
    Modal(Command),
}

impl Interaction {
    /// The name of the interaction's kind.
    pub open spec fn kind_spec(&self) -> Seq<char> {
        match self {
            Interaction::Autocomplete { .. } => "Autocomplete"@,
            Interaction::Command { .. } => "Command"@,
            Interaction::Component { .. } => "Component"@,
            Interaction::Modal { .. } => "Modal"@,
            Interaction::Ping { .. } => "Ping"@,
        }
    }

    /// The name of the interaction's kind.
    pub fn kind(&self) -> (kind: &'static str)
        ensures
            kind@ == self.kind_spec(),
    {
        match self {
            Interaction::Autocomplete { .. } => "Autocomplete",
            Interaction::Command { .. } => "Command",
            Interaction::Component { .. } => "Component",
            Interaction::Modal { .. } => "Modal",
            Interaction::Ping { .. } => "Ping",
        }
    }

    /// The identifier that the platform gave the interaction.
    pub open spec fn id_spec(&self) -> u64 {
        match self {
            Interaction::Autocomplete { id, .. } => *id,
            Interaction::Command { id, .. } => *id,
            Interaction::Component { id, .. } => *id,
            Interaction::Modal { id, .. } => *id,
            Interaction::Ping { id, .. } => *id,
        }
    }

    /// What the interaction carries: the name of a command, the identifier
    /// of a component or modal, the token of a ping.
    pub open spec fn key_spec(&self) -> Seq<char> {
        match self {
            Interaction::Autocomplete { name, .. } => name@,
            Interaction::Command { name, .. } => name@,
            Interaction::Component { custom_id, .. } => custom_id@,
            Interaction::Modal { custom_id, .. } => custom_id@,
            Interaction::Ping { token, .. } => token@,
        }
    }

    /// What the interaction carries, a dot, and its identifier.
    pub open spec fn tag_spec(&self) -> Seq<char> {
        self.key_spec() + seq!['.'] + decimal_seq(self.id_spec() as nat)
    }

    /// What the interaction carries, a dot, and its identifier.
    pub fn tag(&self) -> (tag: String)
        ensures
            tag@ == self.tag_spec(),
    {
        let (key, id) = match self {
            Interaction::Autocomplete { name, id } => (name, *id),
            Interaction::Command { name, id } => (name, *id),
            Interaction::Component { custom_id, id } => (custom_id, *id),
            Interaction::Modal { custom_id, id } => (custom_id, *id),
            Interaction::Ping { token, id } => (token, *id),
        };
        let mut tag = key.clone();
        push_char(&mut tag, '.');
        assert(tag@ == key@ + seq!['.']);
        tag.append(decimal(id).as_str());
        tag
    }

    /// The name under which the interaction appears in the log: its kind,
    /// and its tag in angle brackets.
    pub open spec fn label_spec(&self) -> Seq<char> {
        self.kind_spec() + seq!['<'] + self.tag_spec() + seq!['>']
    }

    /// The name under which the interaction appears in the log.
    pub fn label(&self) -> (label: String)
        ensures
            label@ == self.label_spec(),
    {
        let mut label = String::from_str(self.kind());
        let ghost a = label@;
        push_char(&mut label, '<');
        assert(label@ == a + seq!['<']);
        label.append(self.tag().as_str());
        let ghost b = label@;
        push_char(&mut label, '>');
        assert(label@ == b + seq!['>']);
        label
    }

    /// Whether the platform takes a reply to the interaction.
    pub open spec fn takes_reply(&self) -> bool {
        self is Command || self is Component || self is Modal
    }

    /// Where the interaction goes.
    ///
    /// A slash command goes to the command of its name. A component or
    /// modal goes to the command named by the base of its identifier, if
    /// that command handles components or modals. A key that is in no
    /// table is reported as an invalid value of the interaction's kind,
    /// with the interaction's tag; an identifier that cannot be read is
    /// reported as it is. Other kinds of interaction go nowhere.
    pub open spec fn route_spec(&self) -> core::result::Result<Route, ErrorView> {
        match self {
            Interaction::Command { name, .. } => match Command::named(name@) {
                Some(command) => Ok(Route::Command(command)),
                None => Err(ErrorView::InvalidValue(Value::Command, self.tag_spec())),
            },
            Interaction::Component { custom_id, .. } => match decode(custom_id@) {
                None => Err(ErrorView::InvalidId(Value::CustomId, custom_id@)),
                Some(id) => match Command::named(id.base) {
                    Some(command) if command.has_components() => Ok(Route::Component(command)),
                    _ => Err(ErrorView::InvalidValue(Value::Component, self.tag_spec())),
                },
            },
            Interaction::Modal { custom_id, .. } => match decode(custom_id@) {
                None => Err(ErrorView::InvalidId(Value::CustomId, custom_id@)),
                Some(id) => match Command::named(id.base) {
                    Some(command) if command.has_modals() => Ok(Route::Modal(command)),
                    _ => Err(ErrorView::InvalidValue(Value::Modal, self.tag_spec())),
                },
            },
            _ => Err(ErrorView::InvalidValue(Value::Interaction, decimal_seq(self.id_spec() as nat))),
        }
    }

    /// Looks the interaction's routing key up in the tables.
    pub fn route(&self) -> (r: Result<Route>)
        ensures
            match self.route_spec() {
                Ok(route) => r == Ok::<Route, Error>(route),
                Err(e) => r matches Err(got) && got@ == e,
            },
    {
        match self {
            Interaction::Command { name, .. } => match Command::from_name(name.as_str()) {
                Some(command) => Ok(Route::Command(command)),
                None => Err(Error::InvalidValue(Value::Command, self.tag())),
            },
            Interaction::Component { custom_id, .. } => {
                let id = CustomId::try_from(custom_id.as_str())?;
                match Command::from_name(id.base.as_str()) {
                    Some(Command::Apply) => Ok(Route::Component(Command::Apply)),
                    Some(Command::Poll) => Ok(Route::Component(Command::Poll)),
                    Some(Command::Role) => Ok(Route::Component(Command::Role)),
                    _ => Err(Error::InvalidValue(Value::Component, self.tag())),
                }
            },
            Interaction::Modal { custom_id, .. } => {
                let id = CustomId::try_from(custom_id.as_str())?;
                match Command::from_name(id.base.as_str()) {
                    Some(Command::Apply) => Ok(Route::Modal(Command::Apply)),
                    Some(Command::Poll) => Ok(Route::Modal(Command::Poll)),
                    _ => Err(Error::InvalidValue(Value::Modal, self.tag())),
                }
            },
            Interaction::Autocomplete { id, .. } => Err(
                Error::InvalidValue(Value::Interaction, decimal(*id)),
            ),
            Interaction::Ping { id, .. } => Err(
                Error::InvalidValue(Value::Interaction, decimal(*id)),
            ),
        }
    }
}

/// The reply that tells a user what went wrong: an embed in the bot's
/// colour with the error's message as a quotation, for their eyes only.
pub open spec fn error_reply_spec(message: Seq<char>) -> MessageView {
    MessageView {
        embed: Some(
            EmbedView {
                color: Some(BOT_COLOR),
                description: Some("> "@ + message),
                title: Some("Encountered an error!"@),
                ..blank_embed()
            },
        ),
        buttons: Seq::empty(),
        ephemeral: true,
    }
}

/// The reply that tells a user what went wrong.
pub fn error_reply(error: &Error) -> (reply: Message)
    ensures
        reply@ == error_reply_spec(error@.message()),
{
    let mut description = String::from_str("> ");
    description.append(error.to_string().as_str());
    let embed = Embed::new().color(BOT_COLOR).description(description.as_str()).title(
        "Encountered an error!",
    );
    Message::new().embed(embed).ephemeral(true)
}

/// How an interaction ended.
#[derive(Debug)]
pub enum Outcome {
    /// The handler did its work and has replied itself.
    Succeeded { log: String },
    /// The interaction failed; the user is told so in one reply that only
    /// they see. If the reply cannot be sent, that is logged and nothing
    /// else is done.
    Failed { log: String, reply: Message },
    /// The interaction failed and is of a kind that takes no reply.
    Unanswered { log: String, silent: Error },
}

/// The line of the log for a failure.
pub open spec fn failure_line(label: Seq<char>, message: Seq<char>) -> Seq<char> {
    "Failed: "@ + label + " - "@ + message
}

/// The line of the log for a success.
pub open spec fn success_line(label: Seq<char>) -> Seq<char> {
    "Succeeded: "@ + label
}

/// Whether `outcome` is how `interaction` ends with the result `result` of
/// its handler.
pub open spec fn concludes(interaction: &Interaction, result: Result<()>, outcome: Outcome) -> bool {
    match result {
        Ok(()) => outcome matches Outcome::Succeeded { log } && log@ == success_line(
            interaction.label_spec(),
        ),
        Err(error) => if interaction.takes_reply() {
            &&& outcome matches Outcome::Failed { log, reply }
            &&& log@ == failure_line(interaction.label_spec(), error@.message())
            &&& reply@ == error_reply_spec(error@.message())
        } else {
            &&& outcome matches Outcome::Unanswered { log, silent }
            &&& log@ == failure_line(interaction.label_spec(), error@.message())
            &&& silent@ == ErrorView::InvalidValue(Value::Interaction, interaction.kind_spec())
        },
    }
}

/// Resolves the outcome of an interaction from the result of its handler:
/// a success is logged; a failure is logged and answered with one reply.
pub fn conclude(interaction: &Interaction, result: Result<()>) -> (outcome: Outcome)
    ensures
        concludes(interaction, result, outcome),
{
    let label = interaction.label();
    match result {
        Ok(()) => {
            let mut log = String::from_str("Succeeded: ");
            log.append(label.as_str());
            Outcome::Succeeded { log }
        },
        Err(error) => {
            let mut log = String::from_str("Failed: ");
            log.append(label.as_str());
            log.append(" - ");
            log.append(error.to_string().as_str());
            match interaction {
                Interaction::Command { .. } => Outcome::Failed { log, reply: error_reply(&error) },
                Interaction::Component { .. } => Outcome::Failed {
                    log,
                    reply: error_reply(&error),
                },
                Interaction::Modal { .. } => Outcome::Failed { log, reply: error_reply(&error) },
                _ => Outcome::Unanswered {
                    log,
                    silent: Error::InvalidValue(
                        Value::Interaction,
                        String::from_str(interaction.kind()),
                    ),
                },
            }
        },
    }
}

/// What is done with an interaction.
#[derive(Debug)]
pub enum Dispatch {
    /// The handler at the route is called.
    Invoke(Route),
    /// No handler is called and no record is touched: the interaction ends
    /// here.
    Reject(Outcome),
}

/// Decides what is done with an interaction: its handler is called if the
/// tables have one for it. Otherwise no handler runs, so no record
/// changes, and the interaction ends as a failure: a command, component or
/// modal whose routing key is in no table is answered with exactly one
/// reply, which only the user sees and which holds the error's message.
pub fn dispatch(interaction: &Interaction) -> (dispatch: Dispatch)
    ensures
        match interaction.route_spec() {
            Ok(route) => dispatch == Dispatch::Invoke(route),
            Err(e) => {
                &&& dispatch matches Dispatch::Reject(outcome)
                &&& interaction.takes_reply() ==> {
                    &&& outcome matches Outcome::Failed { log, reply }
                    &&& log@ == failure_line(interaction.label_spec(), e.message())
                    &&& reply@ == error_reply_spec(e.message())
                    &&& reply@.ephemeral
                }
                &&& !interaction.takes_reply() ==> outcome is Unanswered
            },
        },
{
    match interaction.route() {
        Ok(route) => Dispatch::Invoke(route),
        Err(error) => Dispatch::Reject(conclude(interaction, Err(error))),
    }
}

} // verus!
