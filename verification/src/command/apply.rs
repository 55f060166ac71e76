//! Applications to a guild.

use vstd::prelude::*;

use crate::command::apply::config::Config;
use crate::command::apply::config::ConfigChange;
use crate::command::apply::config::Content;
use crate::command::apply::config::ContentView;
use crate::command::apply::config::BUTTON_ABOUT;
use crate::command::apply::config::BUTTON_MODAL;
use crate::command::apply::config::MODAL_SUBMIT;
use crate::command::apply::form::may_submit;
use crate::command::apply::form::refusal;
use crate::command::apply::form::status_of;
use crate::command::apply::form::Form;
use crate::command::apply::form::Status;
use crate::command::apply::form::BUTTON_ACCEPT;
use crate::command::apply::form::BUTTON_DENY;
use crate::command::apply::form::BUTTON_RESEND;
use crate::command::apply::form::MODAL_UPDATE;
use crate::command::apply::form::OPTION_REASON;
use crate::command::channel_option;
use crate::command::context;
use crate::command::context_spec;
use crate::command::find_bool;
use crate::command::find_str;
use crate::command::get_channel;
use crate::command::get_i64;
use crate::command::get_input_text;
use crate::command::get_role;
use crate::command::get_str;
use crate::command::get_subcommand;
use crate::command::get_user;
use crate::command::i64_option;
use crate::command::input_text;
use crate::command::optional_bool;
use crate::command::optional_str;
use crate::command::role_option;
use crate::command::str_option;
use crate::command::subcommand_option;
use crate::command::user_option;
use crate::utility::custom_id::number_arg;
use crate::utility::custom_id::CustomId;
use crate::utility::custom_id::CustomIdView;
use crate::utility::platform::ActionRow;
use crate::utility::platform::CommandOptionType;
use crate::utility::platform::CommandSchema;
use crate::utility::platform::option_names;
use crate::utility::platform::OptionSchema;
use crate::utility::platform::MODERATE_MEMBERS;
use crate::utility::platform::Modal;
use crate::utility::platform::ResolvedOption;
use crate::utility::traits::AsModal;
use crate::utility::text::decimal;
use crate::utility::text::decimal_seq;
use crate::utility::text::parse_i64;
use crate::utility::text::parse_i64_seq;
use crate::utility::text::same_text;
use crate::utility::text::signed_decimal_seq;
use crate::utility::text::unescape_newlines;
use crate::utility::text::unescape_seq;
use crate::utility::Error;
use crate::utility::ErrorView;
use crate::utility::Result;
use crate::utility::Value;

pub mod config;
pub mod form;

verus! {

/// The name of the command, and the base of its components' identifiers.
pub const NAME: &'static str = "apply";

pub const SUB_CONFIG: &'static str = "config";

pub const SUB_MODIFY: &'static str = "modify";

pub const SUB_UPDATE: &'static str = "update";

pub const SUB_REMOVE: &'static str = "remove";

pub const OPTION_TITLE: &'static str = "title";

pub const OPTION_DESCRIPTION: &'static str = "description";

pub const OPTION_THUMB_LINK: &'static str = "thumbnail_link";

pub const OPTION_CHANNEL: &'static str = "output_channel";

pub const OPTION_ROLE: &'static str = "acceptance_role";

pub const OPTION_QUESTION_1: &'static str = "question_1";

pub const OPTION_QUESTION_2: &'static str = "question_2";

pub const OPTION_QUESTION_3: &'static str = "question_3";

pub const OPTION_QUESTION_4: &'static str = "question_4";

pub const OPTION_QUESTION_5: &'static str = "question_5";

pub const OPTION_USER: &'static str = "user";

pub const OPTION_STATUS: &'static str = "status";

pub const OPTION_OVERWRITE: &'static str = "overwrite";

/// The option that holds one of the questions of an application.
fn question_schema(name: &str, description: &str, required: bool) -> (option: OptionSchema)
    ensures
        option.name@ == name@,
        option.kind == CommandOptionType::String,
        option.required == required,
        option.max_length == Some(45u16),
{
    OptionSchema::new(CommandOptionType::String, name, description).max_length(45).required(
        required,
    )
}

/// The options that describe the settings, required for `config` and
/// optional for `modify`.
fn settings_schema(sub: OptionSchema, required: bool) -> (option: OptionSchema)
    requires
        sub.options@.len() == 0,
    ensures
        option.same_head(&sub),
        option_names(option.options@, option.options@.len() as int) == seq![
            OPTION_TITLE@,
            OPTION_DESCRIPTION@,
            OPTION_THUMB_LINK@,
            OPTION_CHANNEL@,
            OPTION_ROLE@,
            OPTION_QUESTION_1@,
            OPTION_QUESTION_2@,
            OPTION_QUESTION_3@,
            OPTION_QUESTION_4@,
            OPTION_QUESTION_5@,
        ],
        forall|i: int|
            0 <= i < 6 ==> (#[trigger] option.options@[i]).required == required,
        forall|i: int| 6 <= i < 10 ==> !(#[trigger] option.options@[i]).required,
{
    let option = sub.add_sub_option(
        OptionSchema::new(
            CommandOptionType::String,
            OPTION_TITLE,
            "The title of the guild application embed",
        ).max_length(256).required(required),
    ).add_sub_option(
        OptionSchema::new(
            CommandOptionType::String,
            OPTION_DESCRIPTION,
            "The description of the guild application embed",
        ).max_length(4096).required(required),
    ).add_sub_option(
        OptionSchema::new(
            CommandOptionType::String,
            OPTION_THUMB_LINK,
            "The thumbnail link of the guild application embed",
        ).required(required),
    ).add_sub_option(
        OptionSchema::new(
            CommandOptionType::Channel,
            OPTION_CHANNEL,
            "The output channel for submitted forms",
        ).text_channels().required(required),
    ).add_sub_option(
        OptionSchema::new(
            CommandOptionType::Role,
            OPTION_ROLE,
            "The role given to members that are accepted",
        ).required(required),
    ).add_sub_option(
        question_schema(OPTION_QUESTION_1, "The first question on the application", required),
    ).add_sub_option(
        question_schema(OPTION_QUESTION_2, "The second question on the application", false),
    ).add_sub_option(
        question_schema(OPTION_QUESTION_3, "The third question on the application", false),
    ).add_sub_option(
        question_schema(OPTION_QUESTION_4, "The fourth question on the application", false),
    ).add_sub_option(
        question_schema(OPTION_QUESTION_5, "The fifth question on the application", false),
    );
    assert(option_names(option.options@, option.options@.len() as int) == seq![
        OPTION_TITLE@,
        OPTION_DESCRIPTION@,
        OPTION_THUMB_LINK@,
        OPTION_CHANNEL@,
        OPTION_ROLE@,
        OPTION_QUESTION_1@,
        OPTION_QUESTION_2@,
        OPTION_QUESTION_3@,
        OPTION_QUESTION_4@,
        OPTION_QUESTION_5@,
    ]);
    option
}

/// The command as it is registered: four subcommands, of which `config`
/// requires the settings it names and `modify` takes them as options.
pub fn new() -> (command: CommandSchema)
    ensures
        command.name@ == NAME@,
        command.description@ == "Manage guild applications"@,
        command.default_member_permissions == MODERATE_MEMBERS,
        !command.dm_permission,
        command.option_names() == seq![SUB_CONFIG@, SUB_MODIFY@, SUB_UPDATE@, SUB_REMOVE@],
        forall|i: int|
            0 <= i < 4 ==> (#[trigger] command.options@[i]).kind == CommandOptionType::SubCommand,
{
    let config = settings_schema(
        OptionSchema::new(
            CommandOptionType::SubCommand,
            SUB_CONFIG,
            "Configure guild applications",
        ),
        true,
    );
    let modify = settings_schema(
        OptionSchema::new(
            CommandOptionType::SubCommand,
            SUB_MODIFY,
            "Modify the guild application configuration",
        ),
        false,
    );
    let update = OptionSchema::new(
        CommandOptionType::SubCommand,
        SUB_UPDATE,
        "Update a member's submitted application",
    ).add_sub_option(
        OptionSchema::new(
            CommandOptionType::User,
            OPTION_USER,
            "The guild member that submitted the application",
        ).required(true),
    ).add_sub_option(
        OptionSchema::new(
            CommandOptionType::Integer,
            OPTION_STATUS,
            "The new status of the application",
        ).add_int_choice(Status::Accepted.to_string(), 1).add_int_choice(
            Status::Denied.to_string(),
            2,
        ).add_int_choice(Status::Resend.to_string(), 3).required(true),
    ).add_sub_option(
        OptionSchema::new(
            CommandOptionType::String,
            OPTION_REASON,
            "The reason for the update",
        ).max_length(256),
    ).add_sub_option(
        OptionSchema::new(
            CommandOptionType::Boolean,
            OPTION_OVERWRITE,
            "Whether to overwrite a finalized application (default false)",
        ),
    );
    let remove = OptionSchema::new(
        CommandOptionType::SubCommand,
        SUB_REMOVE,
        "Remove a member's submitted application",
    ).add_sub_option(
        OptionSchema::new(
            CommandOptionType::User,
            OPTION_USER,
            "The guild member that submitted the application",
        ).required(true),
    );
    let command = CommandSchema::new(NAME).default_member_permissions(
        MODERATE_MEMBERS,
    ).description("Manage guild applications").dm_permission(false).add_option(config).add_option(
        modify,
    ).add_option(update).add_option(remove);
    assert(command.option_names() == seq![SUB_CONFIG@, SUB_MODIFY@, SUB_UPDATE@, SUB_REMOVE@]);
    command
}

/// The name of the option that holds the question at position `index`.
pub open spec fn question_option(index: int) -> Seq<char> {
    if index == 0 {
        OPTION_QUESTION_1@
    } else if index == 1 {
        OPTION_QUESTION_2@
    } else if index == 2 {
        OPTION_QUESTION_3@
    } else if index == 3 {
        OPTION_QUESTION_4@
    } else {
        OPTION_QUESTION_5@
    }
}

/// The name of the option that holds the question at position `index`.
fn question_name(index: usize) -> (name: &'static str)
    ensures
        name@ == question_option(index as int),
{
    match index {
        0 => OPTION_QUESTION_1,
        1 => OPTION_QUESTION_2,
        2 => OPTION_QUESTION_3,
        3 => OPTION_QUESTION_4,
        _ => OPTION_QUESTION_5,
    }
}

/// The questions among the first `upto` question options that are
/// present, in their order.
pub open spec fn asked(o: Seq<ResolvedOption>, upto: int) -> Seq<Seq<char>>
    decreases upto,
{
    if upto <= 0 {
        Seq::empty()
    } else {
        match optional_str(o, question_option(upto - 1)) {
            Some(question) => asked(o, upto - 1).push(question),
            None => asked(o, upto - 1),
        }
    }
}

/// What the moderator's command asks for.
#[derive(Debug)]
pub enum CommandRequest {
    /// Post the guild's card and store these settings.
    Config(Config),
    /// Change the stored settings.
    Modify(ConfigChange),
    /// Change the status of the application of `user`.
    Update { user: u64, status: Status, reason: Option<String>, overwrite: bool },
    /// Remove the application of `user`, and its card.
    Remove { user: u64 },
}

/// The settings that the options of `config` describe. The title, the
/// description and the thumbnail are required, then the channel and the
/// role, in this order; in the description the two characters `\n` stand
/// for a line feed.
pub open spec fn new_config(o: Seq<ResolvedOption>) -> core::result::Result<
    (u64, u64, ContentView),
    ErrorView,
> {
    match str_option(o, OPTION_TITLE@) {
        Err(e) => Err(e),
        Ok(title) => match str_option(o, OPTION_DESCRIPTION@) {
            Err(e) => Err(e),
            Ok(description) => match str_option(o, OPTION_THUMB_LINK@) {
                Err(e) => Err(e),
                Ok(thumbnail) => match channel_option(o, OPTION_CHANNEL@) {
                    Err(e) => Err(e),
                    Ok(channel) => match role_option(o, OPTION_ROLE@) {
                        Err(e) => Err(e),
                        Ok(role) => Ok(
                            (
                                channel,
                                role.id,
                                ContentView {
                                    title,
                                    description: unescape_seq(description),
                                    thumbnail,
                                    questions: asked(o, 5),
                                },
                            ),
                        ),
                    },
                },
            },
        },
    }
}

/// What `config` asks for.
pub open spec fn configured(o: Seq<ResolvedOption>, r: Result<CommandRequest>) -> bool {
    match new_config(o) {
        Err(e) => r matches Err(got) && got@ == e,
        Ok((channel, role, content)) => {
            &&& r matches Ok(CommandRequest::Config(config))
            &&& config.channel == channel
            &&& config.role == role
            &&& config.content@ == content
            &&& config.anchor is None
        },
    }
}

fn configure(o: &[ResolvedOption]) -> (r: Result<CommandRequest>)
    ensures
        configured(o@, r),
{
    let title = get_str(o, OPTION_TITLE)?.to_owned();
    let description = unescape_newlines(get_str(o, OPTION_DESCRIPTION)?);
    let thumbnail = get_str(o, OPTION_THUMB_LINK)?.to_owned();
    let mut questions: Vec<String> = Vec::new();
    let mut index: usize = 0;
    assert(questions.deep_view() == Seq::<Seq<char>>::empty());
    while index < 5
        invariant
            index <= 5,
            questions.deep_view() == asked(o@, index as int),
        decreases 5 - index,
    {
        let ghost before = questions.deep_view();
        match find_str(o, question_name(index)) {
            Some(question) => {
                questions.push(question.to_owned());
                assert(questions.deep_view() == before.push(question@));
            },
            None => {},
        }
        index += 1;
    }
    let channel = get_channel(o, OPTION_CHANNEL)?;
    let role = get_role(o, OPTION_ROLE)?.id;
    Ok(
        CommandRequest::Config(
            Config::new(channel, role, Content::new(title, description, thumbnail, questions)),
        ),
    )
}

/// The new wordings that the options of `modify` hold for the first `upto`
/// questions.
pub open spec fn rewordings(o: Seq<ResolvedOption>, upto: int) -> Seq<Option<Seq<char>>> {
    Seq::new(upto as nat, |i: int| optional_str(o, question_option(i)))
}

/// What `modify` asks for: every option that is present replaces the
/// setting it names.
pub open spec fn changes(o: Seq<ResolvedOption>, r: Result<CommandRequest>) -> bool {
    &&& r matches Ok(CommandRequest::Modify(change))
    &&& change.title.deep_view() == optional_str(o, OPTION_TITLE@)
    &&& change.description.deep_view() == optional_str(o, OPTION_DESCRIPTION@)
    &&& change.thumbnail.deep_view() == optional_str(o, OPTION_THUMB_LINK@)
    &&& change.questions.deep_view() == rewordings(o, 5)
    &&& change.channel == (match channel_option(o, OPTION_CHANNEL@) {
        Ok(channel) => Some(channel),
        Err(_) => None,
    })
    &&& change.role == (match role_option(o, OPTION_ROLE@) {
        Ok(role) => Some(role.id),
        Err(_) => None,
    })
}

/// A copy of an optional text.
fn owned(text: Option<&str>) -> (copy: Option<String>)
    ensures
        copy.deep_view() == text.deep_view(),
{
    match text {
        Some(text) => Some(text.to_owned()),
        None => None,
    }
}

fn change(o: &[ResolvedOption]) -> (r: Result<CommandRequest>)
    ensures
        changes(o@, r),
{
    let mut questions: Vec<Option<String>> = Vec::new();
    let mut index: usize = 0;
    while index < 5
        invariant
            index <= 5,
            questions.deep_view() =~= rewordings(o@, index as int),
        decreases 5 - index,
    {
        let ghost before = questions.deep_view();
        let wording = owned(find_str(o, question_name(index)));
        let ghost view = wording.deep_view();
        questions.push(wording);
        assert(questions.deep_view() =~= before.push(view));
        index += 1;
    }
    let channel = match get_channel(o, OPTION_CHANNEL) {
        Ok(channel) => Some(channel),
        Err(_) => None,
    };
    let role = match get_role(o, OPTION_ROLE) {
        Ok(role) => Some(role.id),
        Err(_) => None,
    };
    Ok(
        CommandRequest::Modify(
            ConfigChange {
                title: owned(find_str(o, OPTION_TITLE)),
                description: owned(find_str(o, OPTION_DESCRIPTION)),
                thumbnail: owned(find_str(o, OPTION_THUMB_LINK)),
                questions,
                channel,
                role,
            },
        ),
    )
}

/// What `update` asks for: the user and the status are required, in this
/// order; a number that is no status is reported as an invalid value.
pub open spec fn updates(o: Seq<ResolvedOption>, r: Result<CommandRequest>) -> bool {
    match user_option(o, OPTION_USER@) {
        Err(e) => r matches Err(got) && got@ == e,
        Ok(user) => match i64_option(o, OPTION_STATUS@) {
            Err(e) => r matches Err(got) && got@ == e,
            Ok(ordinal) => match Status::from_ordinal(ordinal as int) {
                None => r matches Err(got) && got@ == ErrorView::InvalidValue(
                    Value::Data,
                    signed_decimal_seq(ordinal as int),
                ),
                Some(status) => {
                    &&& r matches Ok(
                        CommandRequest::Update { user: who, status: wanted, reason, overwrite },
                    )
                    &&& who == user
                    &&& wanted == status
                    &&& reason.deep_view() == optional_str(o, OPTION_REASON@)
                    &&& overwrite == (optional_bool(o, OPTION_OVERWRITE@) == Some(true))
                },
            },
        },
    }
}

fn update(o: &[ResolvedOption]) -> (r: Result<CommandRequest>)
    ensures
        updates(o@, r),
{
    let user = get_user(o, OPTION_USER)?;
    let status = Status::try_from(get_i64(o, OPTION_STATUS)?)?;
    let reason = owned(find_str(o, OPTION_REASON));
    let overwrite = find_bool(o, OPTION_OVERWRITE) == Some(true);
    Ok(CommandRequest::Update { user, status, reason, overwrite })
}

/// Reads what the moderator's command asks for.
///
/// Outside a guild the command fails for want of the guild. Otherwise the
/// first subcommand that is present decides, in the order `config`,
/// `modify`, `update`, `remove`; if none is, the command's name is
/// reported as an invalid command.
pub fn command_request(guild: Option<u64>, name: &str, o: &[ResolvedOption]) -> (r: Result<
    CommandRequest,
>)
    ensures
        guild is None ==> r == Err::<CommandRequest, Error>(Error::MissingId(Value::Guild)),
        guild is Some ==> (if subcommand_option(o@, SUB_CONFIG@) is Ok {
            configured(subcommand_option(o@, SUB_CONFIG@)->Ok_0, r)
        } else if subcommand_option(o@, SUB_MODIFY@) is Ok {
            changes(subcommand_option(o@, SUB_MODIFY@)->Ok_0, r)
        } else if subcommand_option(o@, SUB_UPDATE@) is Ok {
            updates(subcommand_option(o@, SUB_UPDATE@)->Ok_0, r)
        } else if subcommand_option(o@, SUB_REMOVE@) is Ok {
            match user_option(subcommand_option(o@, SUB_REMOVE@)->Ok_0, OPTION_USER@) {
                Ok(user) => r matches Ok(CommandRequest::Remove { user: who }) && who == user,
                Err(e) => r matches Err(got) && got@ == e,
            }
        } else {
            r matches Err(e) && e@ == ErrorView::InvalidId(Value::Command, name@)
        }),
{
    if guild.is_none() {
        return Err(Error::MissingId(Value::Guild));
    }
    if let Ok(sub) = get_subcommand(o, SUB_CONFIG) {
        configure(sub)
    } else if let Ok(sub) = get_subcommand(o, SUB_MODIFY) {
        change(sub)
    } else if let Ok(sub) = get_subcommand(o, SUB_UPDATE) {
        update(sub)
    } else if let Ok(sub) = get_subcommand(o, SUB_REMOVE) {
        let user = get_user(sub, OPTION_USER)?;
        Ok(CommandRequest::Remove { user })
    } else {
        Err(Error::InvalidId(Value::Command, name.to_owned()))
    }
}

/// What a press of one of the command's buttons asks for.
#[derive(Clone, Copy, Debug, PartialEq, Eq, Structural)]
pub enum ComponentRequest {
    /// Open the application for the member who pressed.
    Apply,
    /// Explain applications.
    About,
    /// Ask the moderator for the reason of giving the application of
    /// `user` the status `status`.
    Review { user: u64, status: Status },
}

/// The status that a button of an application's card gives.
pub open spec fn review_status(name: Seq<char>) -> Option<Status> {
    if name == BUTTON_ACCEPT@ {
        Some(Status::Accepted)
    } else if name == BUTTON_DENY@ {
        Some(Status::Denied)
    } else if name == BUTTON_RESEND@ {
        Some(Status::Resend)
    } else {
        None
    }
}

/// What the identifier of a button asks for. The buttons of an
/// application's card carry the applicant as their first argument. A name
/// that no button of the command has is reported as an invalid component.
pub open spec fn request_of(id: CustomIdView) -> core::result::Result<ComponentRequest, ErrorView> {
    if id.name == BUTTON_MODAL@ {
        Ok(ComponentRequest::Apply)
    } else if id.name == BUTTON_ABOUT@ {
        Ok(ComponentRequest::About)
    } else {
        match review_status(id.name) {
            None => Err(ErrorView::InvalidId(Value::Component, id.name)),
            Some(status) => match number_arg(id.args, 0, Value::User) {
                Err(e) => Err(e),
                Ok(user) => Ok(ComponentRequest::Review { user, status }),
            },
        }
    }
}

/// Reads what a press of a button asks for from the identifier that the
/// button carries, and the guild in which it was pressed.
pub fn component_request(text: &str, guild: Option<u64>) -> (r: Result<(ComponentRequest, u64)>)
    ensures
        match context_spec(text@, guild) {
            Err(e) => r matches Err(got) && got@ == e,
            Ok((id, guild)) => match request_of(id) {
                Err(e) => r matches Err(got) && got@ == e,
                Ok(request) => r == Ok::<(ComponentRequest, u64), Error>((request, guild)),
            },
        },
{
    let (id, guild) = context(text, guild)?;
    let name = id.name.as_str();
    if same_text(name, BUTTON_MODAL) {
        return Ok((ComponentRequest::Apply, guild));
    }
    if same_text(name, BUTTON_ABOUT) {
        return Ok((ComponentRequest::About, guild));
    }
    let status = if same_text(name, BUTTON_ACCEPT) {
        Status::Accepted
    } else if same_text(name, BUTTON_DENY) {
        Status::Denied
    } else if same_text(name, BUTTON_RESEND) {
        Status::Resend
    } else {
        return Err(Error::InvalidId(Value::Component, id.name));
    };
    let user = id.arg_u64(0, Value::User)?;
    Ok((ComponentRequest::Review { user, status }, guild))
}

/// Opens the application for a member: the guild's modal, unless the
/// application that is stored for the member stands in the way.
pub fn open_application(existing: Option<&Form>, config: &Config) -> (r: Result<Modal>)
    ensures
        may_submit(status_of(existing)) ==> (r matches Ok(modal) && modal@ == config.modal()),
        !may_submit(status_of(existing)) ==> r == Err::<Modal, Error>(
            Error::Other(refusal(existing.unwrap().status)),
        ),
{
    match Form::check_submit(existing) {
        Ok(()) => Ok(config.as_modal(())),
        Err(e) => Err(e),
    }
}

/// What a submitted modal asks for.
#[derive(Debug)]
pub enum ModalRequest {
    /// Submit an application with these answers.
    Submit { answers: Vec<String> },
    /// Give the application of `user` the status `status`.
    Update { user: u64, status: Status, reason: Option<String> },
}

/// The answers that a submitted application holds to the first `count`
/// questions: what was typed into the fields named by the questions'
/// positions, without the fields that were left empty.
pub open spec fn answers_of(rows: Seq<ActionRow>, count: int) -> Seq<Seq<char>>
    decreases count,
{
    if count <= 0 {
        Seq::empty()
    } else {
        match input_text(rows, decimal_seq((count - 1) as nat)) {
            Some(text) => answers_of(rows, count - 1).push(text),
            None => answers_of(rows, count - 1),
        }
    }
}

/// The status that the identifier of the update modal carries as its
/// second argument.
pub open spec fn status_arg(args: Seq<Seq<char>>) -> core::result::Result<Status, ErrorView> {
    if args.len() < 2 {
        Err(ErrorView::MissingValue(Value::Other("Status")))
    } else {
        match parse_i64_seq(args[1]) {
            None => Err(ErrorView::InvalidValue(Value::Other("Status"), args[1])),
            Some(ordinal) => match Status::from_ordinal(ordinal as int) {
                None => Err(
                    ErrorView::InvalidValue(Value::Data, signed_decimal_seq(ordinal as int)),
                ),
                Some(status) => Ok(status),
            },
        }
    }
}

/// What a submitted modal asks for: an application with the answers typed,
/// or a change of status with the reason typed, if any. A name that no
/// modal of the command has is reported as an invalid modal.
pub open spec fn modal_request_of(id: CustomIdView, rows: Seq<ActionRow>, r: Result<ModalRequest>) -> bool {
    if id.name == MODAL_SUBMIT@ {
        r matches Ok(ModalRequest::Submit { answers }) && answers.deep_view() == answers_of(
            rows,
            5,
        )
    } else if id.name == MODAL_UPDATE@ {
        match number_arg(id.args, 0, Value::User) {
            Err(e) => r matches Err(got) && got@ == e,
            Ok(user) => match status_arg(id.args) {
                Err(e) => r matches Err(got) && got@ == e,
                Ok(status) => {
                    &&& r matches Ok(ModalRequest::Update { user: who, status: wanted, reason })
                    &&& who == user
                    &&& wanted == status
                    &&& reason.deep_view() == input_text(rows, OPTION_REASON@)
                },
            },
        }
    } else {
        r matches Err(e) && e@ == ErrorView::InvalidId(Value::Modal, id.name)
    }
}

/// Reads what a submitted modal asks for from its identifier and fields.
pub fn modal_request(id: &CustomId, rows: &[ActionRow]) -> (r: Result<ModalRequest>)
    ensures
        modal_request_of(id@, rows@, r),
{
    let name = id.name.as_str();
    if same_text(name, MODAL_SUBMIT) {
        let mut answers: Vec<String> = Vec::new();
        let mut index: usize = 0;
        assert(answers.deep_view() == Seq::<Seq<char>>::empty());
        while index < 5
            invariant
                index <= 5,
                answers.deep_view() == answers_of(rows@, index as int),
            decreases 5 - index,
        {
            let ghost before = answers.deep_view();
            match get_input_text(rows, decimal(index as u64).as_str()) {
                Ok(text) => {
                    let ghost typed = text@;
                    answers.push(text);
                    assert(answers.deep_view() == before.push(typed));
                },
                Err(_) => {},
            }
            index += 1;
        }
        Ok(ModalRequest::Submit { answers })
    } else if same_text(name, MODAL_UPDATE) {
        let user = id.arg_u64(0, Value::User)?;
        if id.args.len() < 2 {
            return Err(Error::MissingValue(Value::Other("Status")));
        }
        let ordinal = match parse_i64(id.args[1].as_str()) {
            Some(ordinal) => ordinal,
            None => {
                return Err(Error::InvalidValue(Value::Other("Status"), id.args[1].clone()));
            },
        };
        let status = Status::try_from(ordinal)?;
        let reason = match get_input_text(rows, OPTION_REASON) {
            Ok(text) => Some(text),
            Err(_) => None,
        };
        Ok(ModalRequest::Update { user, status, reason })
    } else {
        Err(Error::InvalidId(Value::Modal, id.name.clone()))
    }
}

} // verus!
