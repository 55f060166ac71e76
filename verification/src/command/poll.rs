//! Polls: choice polls, response polls and raffles.

use vstd::prelude::*;

use crate::command::context;
use crate::command::context_spec;
use crate::command::get_input_text;
use crate::command::input_text;
use crate::command::poll::form::form_req;
use crate::command::poll::form::archive_req;
use crate::command::poll::form::same_but_inputs;
use crate::command::poll::form::same_but_replies;
use crate::command::poll::form::BUTTON_REMOVE;
use crate::command::poll::form::MAX_HOURS;
use crate::command::poll::form::MIN_HOURS;
use crate::command::poll::form::BUTTON_RESULTS;
use crate::command::poll::form::MODAL_SUBMIT;
use crate::command::poll::input::BUTTON_CHOICE;
use crate::command::poll::input::BUTTON_RAFFLE;
use crate::command::poll::input::BUTTON_RESPONSE;
use crate::command::poll::output::BUTTON_LAST;
use crate::command::poll::output::BUTTON_NEXT;
use crate::utility::clock::created_millis;
use crate::utility::clock::now_millis;
use crate::utility::custom_id::index_arg;
use crate::utility::custom_id::number_arg;
use crate::utility::custom_id::CustomIdView;
use crate::utility::platform::option_names;
use crate::utility::platform::ActionRow;
use crate::utility::platform::CommandOptionType;
use crate::utility::platform::CommandSchema;
use crate::utility::platform::OptionSchema;
use crate::utility::platform::SEND_MESSAGES;
use crate::utility::platform::Modal;
use crate::utility::req::NewReq;
use crate::utility::traits::TryAsModal;
use crate::utility::req::Req;
use crate::utility::req::ReqView;
use crate::utility::text::decimal;
use crate::utility::text::decimal_seq;
use crate::utility::text::same_text;
use crate::command::find_bool;
use crate::command::find_i64;
use crate::command::find_str;
use crate::command::get_i64;
use crate::command::get_str;
use crate::command::get_subcommand;
use crate::command::get_subcommand_group;
use crate::command::group_option;
use crate::command::i64_option;
use crate::command::optional_bool;
use crate::command::optional_i64;
use crate::command::optional_str;
use crate::command::poll::form::Change;
use crate::command::poll::form::Closed;
use crate::command::poll::form::Content;
use crate::command::poll::form::ContentView;
use crate::command::poll::form::Form;
use crate::command::poll::form::Kind;
use crate::command::poll::form::Reply;
use crate::command::poll::input::Input;
use crate::command::str_option;
use crate::command::subcommand_option;
use crate::utility::platform::ResolvedOption;
use crate::utility::text::signed_decimal_seq;
use crate::utility::text::single_line;
use crate::utility::text::single_line_seq;
use crate::utility::Error;
use crate::utility::ErrorView;
use crate::utility::Result;
use crate::utility::Value;

pub mod form;
pub mod input;
pub mod output;

verus! {

/// The name of the command, and the base of its components' identifiers.
pub const NAME: &'static str = "poll";

pub const GROUP_INPUT: &'static str = "input";

pub const SUB_CREATE: &'static str = "create";

pub const SUB_DISCARD: &'static str = "discard";

pub const SUB_MODIFY: &'static str = "modify";

pub const SUB_PREVIEW: &'static str = "preview";

pub const SUB_SEND: &'static str = "send";

pub const SUB_CLOSE: &'static str = "close";

pub const OPTION_KIND: &'static str = "kind";

pub const OPTION_TITLE: &'static str = "title";

pub const OPTION_DESCRIPTION: &'static str = "description";

pub const OPTION_HOURS: &'static str = "hours";

pub const OPTION_IMAGE: &'static str = "image_link";

pub const OPTION_HIDE_MEMBERS: &'static str = "hidden_members";

pub const OPTION_HIDE_RESULTS: &'static str = "hidden_results";

pub const OPTION_FORCE: &'static str = "force";

pub const OPTION_LABEL: &'static str = "label";

pub const OPTION_EMOJI: &'static str = "emoji";

pub const OPTION_PLACEHOLDER: &'static str = "placeholder";

/// What the owner is told when there is no poll to work on.
pub const NO_POLL: &'static str = "You do not have a poll";

/// What the owner is told when a draft is needed and the poll was sent.
pub const ALREADY_SENT: &'static str = "Your poll has already been sent";

/// The options that describe a poll's content, required for `create` and
/// optional for `modify`.
fn content_schema(sub: OptionSchema, required: bool, kind_note: &str) -> (option: OptionSchema)
    requires
        sub.options@.len() == 0,
    ensures
        option.same_head(&sub),
        option_names(option.options@, option.options@.len() as int) == seq![
            OPTION_KIND@,
            OPTION_TITLE@,
            OPTION_DESCRIPTION@,
            OPTION_HOURS@,
            OPTION_IMAGE@,
            OPTION_HIDE_MEMBERS@,
            OPTION_HIDE_RESULTS@,
        ],
        forall|i: int| 0 <= i < 4 ==> (#[trigger] option.options@[i]).required == required,
        forall|i: int| 4 <= i < 7 ==> !(#[trigger] option.options@[i]).required,
        option.options@[3].min_int_value == Some(MIN_HOURS),
        option.options@[3].max_int_value == Some(MAX_HOURS),
{
    let option = sub.add_sub_option(
        OptionSchema::new(CommandOptionType::Integer, OPTION_KIND, kind_note).add_int_choice(
            Kind::Choice.to_string(),
            Kind::Choice.ordinal(),
        ).add_int_choice(Kind::Response.to_string(), Kind::Response.ordinal()).add_int_choice(
            Kind::Raffle.to_string(),
            Kind::Raffle.ordinal(),
        ).required(required),
    ).add_sub_option(
        OptionSchema::new(
            CommandOptionType::String,
            OPTION_TITLE,
            "The title of the poll",
        ).max_length(256).required(required),
    ).add_sub_option(
        OptionSchema::new(
            CommandOptionType::String,
            OPTION_DESCRIPTION,
            "The description of the poll",
        ).max_length(512).required(required),
    ).add_sub_option(
        OptionSchema::new(
            CommandOptionType::Integer,
            OPTION_HOURS,
            "The duration of the poll in hours",
        ).min_int_value(MIN_HOURS).max_int_value(
            MAX_HOURS,
        ).required(required),
    ).add_sub_option(
        OptionSchema::new(
            CommandOptionType::String,
            OPTION_IMAGE,
            "The poll's image link; does not support GIFs",
        ),
    ).add_sub_option(
        OptionSchema::new(
            CommandOptionType::Boolean,
            OPTION_HIDE_MEMBERS,
            "Whether the poll's member replies are anonymous",
        ),
    ).add_sub_option(
        OptionSchema::new(
            CommandOptionType::Boolean,
            OPTION_HIDE_RESULTS,
            "Whether the poll's results are only visible to you",
        ),
    );
    assert(option_names(option.options@, option.options@.len() as int) == seq![
        OPTION_KIND@,
        OPTION_TITLE@,
        OPTION_DESCRIPTION@,
        OPTION_HOURS@,
        OPTION_IMAGE@,
        OPTION_HIDE_MEMBERS@,
        OPTION_HIDE_RESULTS@,
    ]);
    option
}

/// The group of subcommands that manage a draft's inputs.
fn input_schema() -> (option: OptionSchema)
    ensures
        option.kind == CommandOptionType::SubCommandGroup,
        option.name@ == GROUP_INPUT@,
        option_names(option.options@, option.options@.len() as int) == seq![
            SUB_CREATE@,
            SUB_DISCARD@,
        ],
{
    let option = OptionSchema::new(
        CommandOptionType::SubCommandGroup,
        GROUP_INPUT,
        "Create or manage poll inputs",
    ).add_sub_option(
        OptionSchema::new(
            CommandOptionType::SubCommand,
            SUB_CREATE,
            "Creates a new poll input; does not work with Raffle polls",
        ).add_sub_option(
            OptionSchema::new(
                CommandOptionType::String,
                OPTION_LABEL,
                "The label of the poll input",
            ).max_length(45).required(true),
        ).add_sub_option(
            OptionSchema::new(
                CommandOptionType::String,
                OPTION_EMOJI,
                "The emoji of the poll button; only works for Choice polls, and invalid values will be ignored",
            ),
        ).add_sub_option(
            OptionSchema::new(
                CommandOptionType::String,
                OPTION_PLACEHOLDER,
                "The placeholder text of the poll field; only works for Response polls",
            ).max_length(45),
        ),
    ).add_sub_option(
        OptionSchema::new(
            CommandOptionType::SubCommand,
            SUB_DISCARD,
            "Discards poll inputs; does not work with Raffle polls",
        ),
    );
    assert(option_names(option.options@, option.options@.len() as int) == seq![
        SUB_CREATE@,
        SUB_DISCARD@,
    ]);
    option
}

/// The command as it is registered: six subcommands and the group of
/// subcommands for inputs.
pub fn new() -> (command: CommandSchema)
    ensures
        command.name@ == NAME@,
        command.description@ == "Create or manage polls"@,
        command.default_member_permissions == SEND_MESSAGES,
        !command.dm_permission,
        command.option_names() == seq![
            SUB_CREATE@,
            SUB_DISCARD@,
            SUB_MODIFY@,
            SUB_PREVIEW@,
            SUB_SEND@,
            SUB_CLOSE@,
            GROUP_INPUT@,
        ],
        forall|i: int|
            0 <= i < 6 ==> (#[trigger] command.options@[i]).kind == CommandOptionType::SubCommand,
        command.options@[6].kind == CommandOptionType::SubCommandGroup,
{
    let create = content_schema(
        OptionSchema::new(CommandOptionType::SubCommand, SUB_CREATE, "Creates a new poll"),
        true,
        "The type of poll",
    );
    let discard = OptionSchema::new(
        CommandOptionType::SubCommand,
        SUB_DISCARD,
        "Discards your poll",
    ).add_sub_option(
        OptionSchema::new(
            CommandOptionType::Boolean,
            OPTION_FORCE,
            "Whether the poll should be discarded even if it has been sent",
        ),
    );
    let modify = content_schema(
        OptionSchema::new(
            CommandOptionType::SubCommand,
            SUB_MODIFY,
            "Modifies your poll's content",
        ),
        false,
        "The type of poll; this will remove all existing inputs",
    );
    let command = CommandSchema::new(NAME).default_member_permissions(SEND_MESSAGES).description(
        "Create or manage polls",
    ).dm_permission(false).add_option(create).add_option(discard).add_option(modify).add_option(
        OptionSchema::new(CommandOptionType::SubCommand, SUB_PREVIEW, "Previews your poll"),
    ).add_option(
        OptionSchema::new(CommandOptionType::SubCommand, SUB_SEND, "Sends your poll"),
    ).add_option(
        OptionSchema::new(CommandOptionType::SubCommand, SUB_CLOSE, "Closes your poll"),
    ).add_option(input_schema());
    assert(command.option_names() == seq![
        SUB_CREATE@,
        SUB_DISCARD@,
        SUB_MODIFY@,
        SUB_PREVIEW@,
        SUB_SEND@,
        SUB_CLOSE@,
        GROUP_INPUT@,
    ]);
    command
}

/// What the command does once its checks have passed. Each variant holds
/// the poll in the state in which it is to be stored or shown.
#[derive(Debug)]
pub enum CommandPlan {
    /// Store the new draft.
    Created(Form),
    /// Delete the card, if the poll has one, and remove the poll.
    Discarded(Form),
    /// Store the changed draft.
    Modified(Form),
    /// Show the draft's card to its owner, with the buttons switched off.
    Preview(Form),
    /// Post the card, record where with [`Form::send`], list the poll as
    /// open and store it.
    Send(Form),
    /// Switch the card's buttons off, announce the results, list the poll
    /// as closed, keep it under its new key and remove the open one.
    Close(Closed),
    /// Store the draft with its new input.
    InputAdded(Form),
    /// Show the owner the buttons that remove inputs.
    InputList(Form),
}

/// The subcommand that a list of options selects, with its own options.
pub ghost enum Selected {
    Create(Seq<ResolvedOption>),
    Discard(Seq<ResolvedOption>),
    Modify(Seq<ResolvedOption>),
    Preview,
    Send,
    Close,
    InputCreate(Seq<ResolvedOption>),
    InputDiscard,
    Nothing,
}

/// Which subcommand the options select: the first, in the order of the
/// variants of [`Selected`], that is present as a subcommand.
pub open spec fn selected(o: Seq<ResolvedOption>) -> Selected {
    if subcommand_option(o, SUB_CREATE@) is Ok {
        Selected::Create(subcommand_option(o, SUB_CREATE@)->Ok_0)
    } else if subcommand_option(o, SUB_DISCARD@) is Ok {
        Selected::Discard(subcommand_option(o, SUB_DISCARD@)->Ok_0)
    } else if subcommand_option(o, SUB_MODIFY@) is Ok {
        Selected::Modify(subcommand_option(o, SUB_MODIFY@)->Ok_0)
    } else if subcommand_option(o, SUB_PREVIEW@) is Ok {
        Selected::Preview
    } else if subcommand_option(o, SUB_SEND@) is Ok {
        Selected::Send
    } else if subcommand_option(o, SUB_CLOSE@) is Ok {
        Selected::Close
    } else if group_option(o, GROUP_INPUT@) is Ok {
        let group = group_option(o, GROUP_INPUT@)->Ok_0;
        if subcommand_option(group, SUB_CREATE@) is Ok {
            Selected::InputCreate(subcommand_option(group, SUB_CREATE@)->Ok_0)
        } else if subcommand_option(group, SUB_DISCARD@) is Ok {
            Selected::InputDiscard
        } else {
            Selected::Nothing
        }
    } else {
        Selected::Nothing
    }
}

/// The kind and content that the options of `create` describe. The kind,
/// the title, the description and the duration are required, in this
/// order; the description is put on one line.
pub open spec fn new_content(o: Seq<ResolvedOption>) -> core::result::Result<
    (Kind, ContentView),
    ErrorView,
> {
    match i64_option(o, OPTION_KIND@) {
        Err(e) => Err(e),
        Ok(ordinal) => match Kind::from_ordinal(ordinal as int) {
            None => Err(ErrorView::InvalidId(Value::Data, signed_decimal_seq(ordinal as int))),
            Some(kind) => match str_option(o, OPTION_TITLE@) {
                Err(e) => Err(e),
                Ok(title) => match str_option(o, OPTION_DESCRIPTION@) {
                    Err(e) => Err(e),
                    Ok(description) => match i64_option(o, OPTION_HOURS@) {
                        Err(e) => Err(e),
                        Ok(hours) => Ok(
                            (
                                kind,
                                ContentView {
                                    title,
                                    description: single_line_seq(description),
                                    hours,
                                    image: optional_str(o, OPTION_IMAGE@),
                                    hide_members: optional_bool(o, OPTION_HIDE_MEMBERS@)
                                        == Some(true),
                                    hide_results: optional_bool(o, OPTION_HIDE_RESULTS@)
                                        == Some(true),
                                },
                            ),
                        ),
                    },
                },
            },
        },
    }
}

/// What `create` comes to: refused while the owner has a poll; otherwise a
/// draft without inputs, of the kind and with the content that the options
/// describe.
pub open spec fn created(
    existing: Option<Form>,
    user: u64,
    o: Seq<ResolvedOption>,
    r: Result<CommandPlan>,
) -> bool {
    if existing is Some {
        r == Err::<CommandPlan, Error>(Error::Other("You already have a poll"))
    } else {
        match new_content(o) {
            Err(e) => r matches Err(got) && got@ == e,
            Ok((kind, content)) => {
                &&& r matches Ok(CommandPlan::Created(form))
                &&& form.user == user
                &&& form.kind == kind
                &&& form.content@ == content
                &&& form.inputs@ == Seq::<Input>::empty()
                &&& form.replies@ == Map::<u64, Reply>::empty()
                &&& form.anchor is None
                &&& form.output is None
                &&& form.wf()
            },
        }
    }
}

fn create(existing: Option<Form>, user: u64, o: &[ResolvedOption]) -> (r: Result<CommandPlan>)
    ensures
        created(existing, user, o@, r),
{
    if existing.is_some() {
        return Err(Error::Other("You already have a poll"));
    }
    let kind = Kind::try_from(get_i64(o, OPTION_KIND)?)?;
    let title = get_str(o, OPTION_TITLE)?.to_owned();
    let description = single_line(get_str(o, OPTION_DESCRIPTION)?);
    let hours = get_i64(o, OPTION_HOURS)?;
    let image = match find_str(o, OPTION_IMAGE) {
        Some(link) => Some(link.to_owned()),
        None => None,
    };
    let hide_members = find_bool(o, OPTION_HIDE_MEMBERS) == Some(true);
    let hide_results = find_bool(o, OPTION_HIDE_RESULTS) == Some(true);
    let content = Content { title, description, hours, image, hide_members, hide_results };
    Ok(CommandPlan::Created(Form::new(user, kind, content)))
}

/// What `discard` comes to: refused without a poll, and for a poll that
/// was sent unless the option `force` is set.
pub open spec fn discarded(existing: Option<Form>, o: Seq<ResolvedOption>, r: Result<CommandPlan>) -> bool {
    match existing {
        None => r == Err::<CommandPlan, Error>(Error::Other(NO_POLL)),
        Some(form) => if form.anchor is Some && optional_bool(o, OPTION_FORCE@) != Some(true) {
            r == Err::<CommandPlan, Error>(Error::Other(ALREADY_SENT))
        } else {
            r == Ok::<CommandPlan, Error>(CommandPlan::Discarded(form))
        },
    }
}

fn discard(existing: Option<Form>, o: &[ResolvedOption]) -> (r: Result<CommandPlan>)
    ensures
        discarded(existing, o@, r),
{
    let force = find_bool(o, OPTION_FORCE) == Some(true);
    let form = match existing {
        Some(form) => form,
        None => {
            return Err(Error::Other(NO_POLL));
        },
    };
    if form.anchor.is_some() && !force {
        return Err(Error::Other(ALREADY_SENT));
    }
    Ok(CommandPlan::Discarded(form))
}

/// The content of a draft after `modify`: every option that is present
/// replaces the field it names.
pub open spec fn modified_content(content: ContentView, o: Seq<ResolvedOption>) -> ContentView {
    ContentView {
        title: match optional_str(o, OPTION_TITLE@) {
            Some(title) => title,
            None => content.title,
        },
        description: match optional_str(o, OPTION_DESCRIPTION@) {
            Some(description) => description,
            None => content.description,
        },
        hours: match optional_i64(o, OPTION_HOURS@) {
            Some(hours) => hours,
            None => content.hours,
        },
        image: match optional_str(o, OPTION_IMAGE@) {
            Some(image) => Some(image),
            None => content.image,
        },
        hide_members: match optional_bool(o, OPTION_HIDE_MEMBERS@) {
            Some(hidden) => hidden,
            None => content.hide_members,
        },
        hide_results: match optional_bool(o, OPTION_HIDE_RESULTS@) {
            Some(hidden) => hidden,
            None => content.hide_results,
        },
    }
}

/// What `modify` comes to: refused without a poll, for a poll that was
/// sent, and for a kind that does not exist; otherwise the draft with the
/// named fields replaced, and without inputs if the kind was named.
pub open spec fn modified(existing: Option<Form>, o: Seq<ResolvedOption>, r: Result<CommandPlan>) -> bool {
    match existing {
        None => r == Err::<CommandPlan, Error>(Error::Other(NO_POLL)),
        Some(form) => if form.anchor is Some {
            r == Err::<CommandPlan, Error>(Error::Other(ALREADY_SENT))
        } else {
            match optional_i64(o, OPTION_KIND@) {
                Some(ordinal) if Kind::from_ordinal(ordinal as int) is None => r matches Err(got)
                    && got@ == ErrorView::InvalidId(
                    Value::Data,
                    signed_decimal_seq(ordinal as int),
                ),
                named => {
                    &&& r matches Ok(CommandPlan::Modified(changed))
                    &&& changed.user == form.user
                    &&& changed.kind == (match named {
                        Some(ordinal) => Kind::from_ordinal(ordinal as int).unwrap(),
                        None => form.kind,
                    })
                    &&& changed.inputs@ == (match named {
                        Some(_) => Seq::<Input>::empty(),
                        None => form.inputs@,
                    })
                    &&& changed.content@ == modified_content(form.content@, o)
                    &&& changed.replies == form.replies
                    &&& changed.anchor is None
                    &&& changed.output == form.output
                    &&& form.wf() ==> changed.wf()
                },
            }
        },
    }
}

fn modify(existing: Option<Form>, o: &[ResolvedOption]) -> (r: Result<CommandPlan>)
    ensures
        modified(existing, o@, r),
{
    let mut form = match existing {
        Some(form) => form,
        None => {
            return Err(Error::Other(NO_POLL));
        },
    };
    if form.anchor.is_some() {
        return Err(Error::Other(ALREADY_SENT));
    }
    let kind = match find_i64(o, OPTION_KIND) {
        Some(ordinal) => Some(Kind::try_from(ordinal)?),
        None => None,
    };
    let title = match find_str(o, OPTION_TITLE) {
        Some(text) => Some(text.to_owned()),
        None => None,
    };
    let description = match find_str(o, OPTION_DESCRIPTION) {
        Some(text) => Some(text.to_owned()),
        None => None,
    };
    let image = match find_str(o, OPTION_IMAGE) {
        Some(text) => Some(text.to_owned()),
        None => None,
    };
    let change = Change {
        kind,
        title,
        description,
        hours: find_i64(o, OPTION_HOURS),
        image,
        hide_members: find_bool(o, OPTION_HIDE_MEMBERS),
        hide_results: find_bool(o, OPTION_HIDE_RESULTS),
    };
    let ghost before = form;
    match form.modify(change) {
        Ok(()) => {
            assert(form.content@ == modified_content(before.content@, o@));
            Ok(CommandPlan::Modified(form))
        },
        Err(e) => Err(e),
    }
}

/// What `preview` comes to: refused without a poll and for a poll that was
/// sent.
pub open spec fn previewed(existing: Option<Form>, r: Result<CommandPlan>) -> bool {
    match existing {
        None => r == Err::<CommandPlan, Error>(Error::Other(NO_POLL)),
        Some(form) => if form.anchor is Some {
            r == Err::<CommandPlan, Error>(Error::Other(ALREADY_SENT))
        } else {
            r == Ok::<CommandPlan, Error>(CommandPlan::Preview(form))
        },
    }
}

fn preview(existing: Option<Form>) -> (r: Result<CommandPlan>)
    ensures
        previewed(existing, r),
{
    let form = match existing {
        Some(form) => form,
        None => {
            return Err(Error::Other(NO_POLL));
        },
    };
    if form.anchor.is_some() {
        return Err(Error::Other(ALREADY_SENT));
    }
    Ok(CommandPlan::Preview(form))
}

/// What `send` comes to: refused without a poll, for a poll that was sent,
/// for a poll that asks nothing although it is no raffle, and for a choice
/// between fewer than two options.
pub open spec fn sent(existing: Option<Form>, r: Result<CommandPlan>) -> bool {
    match existing {
        None => r == Err::<CommandPlan, Error>(Error::Other(NO_POLL)),
        Some(form) => if form.anchor is Some {
            r == Err::<CommandPlan, Error>(Error::Other(ALREADY_SENT))
        } else {
            match form.send_refusal(true) {
                Some(e) => r == Err::<CommandPlan, Error>(e),
                None => r == Ok::<CommandPlan, Error>(CommandPlan::Send(form)),
            }
        },
    }
}

fn send(existing: Option<Form>) -> (r: Result<CommandPlan>)
    ensures
        sent(existing, r),
{
    let form = match existing {
        Some(form) => form,
        None => {
            return Err(Error::Other(NO_POLL));
        },
    };
    if form.anchor.is_some() {
        return Err(Error::Other(ALREADY_SENT));
    }
    match form.check_send(true) {
        Ok(_) => Ok(CommandPlan::Send(form)),
        Err(e) => Err(e),
    }
}

/// What `close` comes to: refused without a poll, for a poll that was never
/// sent and for one that is closed; otherwise the poll with its results, as
/// [`Form::close`] gives it.
pub open spec fn closed(existing: Option<Form>, r: Result<CommandPlan>) -> bool {
    match existing {
        None => r == Err::<CommandPlan, Error>(Error::Other(NO_POLL)),
        Some(form) => if form.anchor is None {
            r == Err::<CommandPlan, Error>(Error::Other("Your poll has not been sent"))
        } else {
            match form.close_refusal() {
                Some(e) => r == Err::<CommandPlan, Error>(e),
                None => {
                    &&& r matches Ok(CommandPlan::Close(done))
                    &&& done.form.user == form.user
                    &&& done.form.kind == form.kind
                    &&& done.form.content == form.content
                    &&& done.form.inputs == form.inputs
                    &&& done.form.replies == form.replies
                    &&& done.form.anchor == form.anchor
                    &&& done.form.output matches Some(output) && output.is_output_of(
                        form.kind,
                        form.inputs@,
                        form.replies@,
                    )
                    &&& done.form.close_refusal() is Some
                    &&& done.card == form.anchor.unwrap()
                    &&& done.entry == (done.card.guild, form.user)
                    &&& done.archive@ == archive_req(
                        done.card.guild,
                        form.user,
                        done.card.message,
                    )
                    &&& done.draft@ == form_req(
                        done.card.guild,
                        form.user,
                    )
                },
            }
        },
    }
}

fn close(existing: Option<Form>) -> (r: Result<CommandPlan>)
    ensures
        closed(existing, r),
{
    let form = match existing {
        Some(form) => form,
        None => {
            return Err(Error::Other(NO_POLL));
        },
    };
    if form.anchor.is_none() {
        return Err(Error::Other("Your poll has not been sent"));
    }
    match form.close() {
        Ok(done) => Ok(CommandPlan::Close(done)),
        Err(e) => Err(e),
    }
}

/// What `input create` comes to: the label is required; then refused
/// without a poll, and as [`Form::add_input`] refuses; otherwise the draft
/// with the new input at its end.
pub open spec fn input_created(existing: Option<Form>, o: Seq<ResolvedOption>, r: Result<CommandPlan>) -> bool {
    match str_option(o, OPTION_LABEL@) {
        Err(e) => r matches Err(got) && got@ == e,
        Ok(label) => match existing {
            None => r == Err::<CommandPlan, Error>(Error::Other(NO_POLL)),
            Some(form) => match form.add_refusal(label) {
                Some(e) => r == Err::<CommandPlan, Error>(e),
                None => {
                    &&& r matches Ok(CommandPlan::InputAdded(added))
                    &&& Form::input_added(
                        &form,
                        &added,
                        label,
                        optional_str(o, OPTION_EMOJI@),
                        optional_str(o, OPTION_PLACEHOLDER@),
                    )
                    &&& form.wf() ==> added.wf()
                },
            },
        },
    }
}

fn input_create(existing: Option<Form>, o: &[ResolvedOption]) -> (r: Result<CommandPlan>)
    ensures
        input_created(existing, o@, r),
{
    let label = get_str(o, OPTION_LABEL)?;
    let mut form = match existing {
        Some(form) => form,
        None => {
            return Err(Error::Other(NO_POLL));
        },
    };
    match form.add_input_from(label, find_str(o, OPTION_EMOJI), find_str(o, OPTION_PLACEHOLDER)) {
        Ok(()) => Ok(CommandPlan::InputAdded(form)),
        Err(e) => Err(e),
    }
}

/// What `input discard` comes to: refused without a poll, for a poll that
/// was sent, and for a poll without inputs.
pub open spec fn input_listed(existing: Option<Form>, r: Result<CommandPlan>) -> bool {
    match existing {
        None => r == Err::<CommandPlan, Error>(Error::Other(NO_POLL)),
        Some(form) => if form.anchor is Some {
            r == Err::<CommandPlan, Error>(Error::Other(ALREADY_SENT))
        } else if form.inputs.len() == 0 {
            r == Err::<CommandPlan, Error>(Error::Other("Your poll does not have any inputs"))
        } else {
            r == Ok::<CommandPlan, Error>(CommandPlan::InputList(form))
        },
    }
}

fn input_discard(existing: Option<Form>) -> (r: Result<CommandPlan>)
    ensures
        input_listed(existing, r),
{
    let form = match existing {
        Some(form) => form,
        None => {
            return Err(Error::Other(NO_POLL));
        },
    };
    if form.anchor.is_some() {
        return Err(Error::Other(ALREADY_SENT));
    }
    if form.inputs.len() == 0 {
        return Err(Error::Other("Your poll does not have any inputs"));
    }
    Ok(CommandPlan::InputList(form))
}

/// Decides what the command does.
///
/// `guild` is the guild in which the command was given, `user` who gave
/// it, `name` the command's name as the platform sent it, `o` its options
/// and `existing` the poll that is stored for the user, if any.
///
/// Outside a guild the command fails for want of the guild. Otherwise the
/// subcommand that the options select decides; if they select none, the
/// name is reported as an invalid command.
pub fn run_command(
    guild: Option<u64>,
    user: u64,
    name: &str,
    o: &[ResolvedOption],
    existing: Option<Form>,
) -> (r: Result<CommandPlan>)
    ensures
        guild is None ==> r == Err::<CommandPlan, Error>(Error::MissingId(Value::Guild)),
        guild is Some ==> match selected(o@) {
            Selected::Create(sub) => created(existing, user, sub, r),
            Selected::Discard(sub) => discarded(existing, sub, r),
            Selected::Modify(sub) => modified(existing, sub, r),
            Selected::Preview => previewed(existing, r),
            Selected::Send => sent(existing, r),
            Selected::Close => closed(existing, r),
            Selected::InputCreate(sub) => input_created(existing, sub, r),
            Selected::InputDiscard => input_listed(existing, r),
            Selected::Nothing => r matches Err(e) && e@ == ErrorView::InvalidId(
                Value::Command,
                name@,
            ),
        },
{
    if guild.is_none() {
        return Err(Error::MissingId(Value::Guild));
    }
    if let Ok(sub) = get_subcommand(o, SUB_CREATE) {
        create(existing, user, sub)
    } else if let Ok(sub) = get_subcommand(o, SUB_DISCARD) {
        discard(existing, sub)
    } else if let Ok(sub) = get_subcommand(o, SUB_MODIFY) {
        modify(existing, sub)
    } else if get_subcommand(o, SUB_PREVIEW).is_ok() {
        preview(existing)
    } else if get_subcommand(o, SUB_SEND).is_ok() {
        send(existing)
    } else if get_subcommand(o, SUB_CLOSE).is_ok() {
        close(existing)
    } else if let Ok(group) = get_subcommand_group(o, GROUP_INPUT) {
        if let Ok(sub) = get_subcommand(group, SUB_CREATE) {
            input_create(existing, sub)
        } else if get_subcommand(group, SUB_DISCARD).is_ok() {
            input_discard(existing)
        } else {
            Err(Error::InvalidId(Value::Command, name.to_owned()))
        }
    } else {
        Err(Error::InvalidId(Value::Command, name.to_owned()))
    }
}

/// What a press of one of a poll's buttons asks for.
#[derive(Clone, Copy, Debug, PartialEq, Eq, Structural)]
pub enum ComponentRequest {
    /// Remove the input at `index` from the draft of `user`.
    Remove { user: u64, index: usize },
    /// Vote for the option at `index` of the poll of `user`.
    Choice { user: u64, index: usize },
    /// Open the modal of the response poll of `user`.
    Response { user: u64 },
    /// Enter the raffle of `user`, or leave it.
    Raffle { user: u64 },
    /// Show page `page` of the results of the closed poll of `user` that
    /// was posted as `message`.
    Results { user: u64, message: u64, page: usize },
}

/// One less, but not below zero.
pub open spec fn page_before(page: usize) -> usize {
    if page == 0 {
        0
    } else {
        (page - 1) as usize
    }
}

/// One more, but not above the largest number.
pub open spec fn page_after(page: usize) -> usize {
    if page == usize::MAX {
        page
    } else {
        (page + 1) as usize
    }
}

/// What the identifier of a poll's button asks for. The first argument is
/// always the poll's owner; inputs and options add their position, results
/// the message of the closed poll, and the page buttons the page shown.
/// A name that no button of a poll has is reported as an invalid component.
pub open spec fn request_of(id: CustomIdView) -> core::result::Result<ComponentRequest, ErrorView> {
    let user = number_arg(id.args, 0, Value::User);
    if id.name == BUTTON_REMOVE@ || id.name == BUTTON_CHOICE@ {
        match user {
            Err(e) => Err(e),
            Ok(user) => match index_arg(id.args, 1, Value::Data) {
                Err(e) => Err(e),
                Ok(index) => Ok(
                    if id.name == BUTTON_REMOVE@ {
                        ComponentRequest::Remove { user, index }
                    } else {
                        ComponentRequest::Choice { user, index }
                    },
                ),
            },
        }
    } else if id.name == BUTTON_RESPONSE@ || id.name == BUTTON_RAFFLE@ {
        match user {
            Err(e) => Err(e),
            Ok(user) => Ok(
                if id.name == BUTTON_RESPONSE@ {
                    ComponentRequest::Response { user }
                } else {
                    ComponentRequest::Raffle { user }
                },
            ),
        }
    } else if id.name == BUTTON_RESULTS@ || id.name == BUTTON_LAST@ || id.name == BUTTON_NEXT@ {
        match user {
            Err(e) => Err(e),
            Ok(user) => match number_arg(id.args, 1, Value::Message) {
                Err(e) => Err(e),
                Ok(message) => if id.name == BUTTON_RESULTS@ {
                    Ok(ComponentRequest::Results { user, message, page: 1 })
                } else {
                    match index_arg(id.args, 2, Value::Data) {
                        Err(e) => Err(e),
                        Ok(page) => Ok(
                            ComponentRequest::Results {
                                user,
                                message,
                                page: if id.name == BUTTON_LAST@ {
                                    page_before(page)
                                } else {
                                    page_after(page)
                                },
                            },
                        ),
                    }
                },
            },
        }
    } else {
        Err(ErrorView::InvalidId(Value::Component, id.name))
    }
}

/// The names of a poll's buttons differ from each other.
pub proof fn lemma_button_names_differ()
    ensures
        BUTTON_REMOVE@ != BUTTON_CHOICE@,
        BUTTON_REMOVE@.len() == 11,
        BUTTON_CHOICE@.len() == 11,
        BUTTON_RESPONSE@.len() == 13,
        BUTTON_RAFFLE@.len() == 11,
        BUTTON_RESULTS@.len() == 12,
        BUTTON_LAST@.len() == 9,
        BUTTON_NEXT@.len() == 9,
        BUTTON_REMOVE@ != BUTTON_RAFFLE@,
        BUTTON_CHOICE@ != BUTTON_RAFFLE@,
        BUTTON_LAST@ != BUTTON_NEXT@,
{
    reveal_strlit("poll_remove");
    reveal_strlit("poll_choice");
    reveal_strlit("poll_response");
    reveal_strlit("poll_raffle");
    reveal_strlit("poll_results");
    reveal_strlit("poll_last");
    reveal_strlit("poll_next");
    assert(BUTTON_REMOVE@[5] == 'r' && BUTTON_CHOICE@[5] == 'c');
    assert(BUTTON_RAFFLE@[6] == 'a' && BUTTON_REMOVE@[6] == 'e');
    assert(BUTTON_LAST@[5] == 'l' && BUTTON_NEXT@[5] == 'n');
}

impl ComponentRequest {
    /// The key of the poll that the request speaks of: the closed poll for
    /// results, the open poll or draft otherwise.
    pub open spec fn record_spec(self, guild: u64) -> ReqView {
        match self {
            ComponentRequest::Remove { user, .. } => form_req(guild, user),
            ComponentRequest::Choice { user, .. } => form_req(guild, user),
            ComponentRequest::Response { user } => form_req(guild, user),
            ComponentRequest::Raffle { user } => form_req(guild, user),
            ComponentRequest::Results { user, message, .. } => archive_req(guild, user, message),
        }
    }

    /// The key of the poll that the request speaks of.
    pub fn record(&self, guild: u64) -> (req: Req<Form>)
        ensures
            req@ == self.record_spec(guild),
    {
        match self {
            ComponentRequest::Remove { user, .. } => <Form as NewReq<(u64, u64)>>::new_req(
                (guild, *user),
            ),
            ComponentRequest::Choice { user, .. } => <Form as NewReq<(u64, u64)>>::new_req(
                (guild, *user),
            ),
            ComponentRequest::Response { user } => <Form as NewReq<(u64, u64)>>::new_req(
                (guild, *user),
            ),
            ComponentRequest::Raffle { user } => <Form as NewReq<(u64, u64)>>::new_req(
                (guild, *user),
            ),
            ComponentRequest::Results { user, message, .. } => <Form as NewReq<
                (u64, u64, u64),
            >>::new_req((guild, *user, *message)),
        }
    }
}

/// Reads what a press of a poll's button asks for from the identifier that
/// the button carries, and the guild in which it was pressed.
pub fn component_request(text: &str, guild: Option<u64>) -> (r: Result<(ComponentRequest, u64)>)
    ensures
        match context_spec(text@, guild) {
            Err(e) => r matches Err(got) && got@ == e,
            Ok((id, guild)) => match request_of(id) {
                Err(e) => r matches Err(got) && got@ == e,
                Ok(request) => r == Ok::<(ComponentRequest, u64), Error>((request, guild)),
            },
        },
{
    let (id, guild) = context(text, guild)?;
    let name = id.name.as_str();
    proof {
        lemma_button_names_differ();
    }
    if same_text(name, BUTTON_REMOVE) {
        let user = id.arg_u64(0, Value::User)?;
        let index = id.arg_usize(1, Value::Data)?;
        Ok((ComponentRequest::Remove { user, index }, guild))
    } else if same_text(name, BUTTON_CHOICE) {
        let user = id.arg_u64(0, Value::User)?;
        let index = id.arg_usize(1, Value::Data)?;
        Ok((ComponentRequest::Choice { user, index }, guild))
    } else if same_text(name, BUTTON_RESPONSE) {
        let user = id.arg_u64(0, Value::User)?;
        Ok((ComponentRequest::Response { user }, guild))
    } else if same_text(name, BUTTON_RAFFLE) {
        let user = id.arg_u64(0, Value::User)?;
        Ok((ComponentRequest::Raffle { user }, guild))
    } else if same_text(name, BUTTON_RESULTS) {
        let user = id.arg_u64(0, Value::User)?;
        let message = id.arg_u64(1, Value::Message)?;
        Ok((ComponentRequest::Results { user, message, page: 1 }, guild))
    } else if same_text(name, BUTTON_LAST) {
        let user = id.arg_u64(0, Value::User)?;
        let message = id.arg_u64(1, Value::Message)?;
        let page = id.arg_usize(2, Value::Data)?;
        let page = if page == 0 {
            0
        } else {
            page - 1
        };
        Ok((ComponentRequest::Results { user, message, page }, guild))
    } else if same_text(name, BUTTON_NEXT) {
        let user = id.arg_u64(0, Value::User)?;
        let message = id.arg_u64(1, Value::Message)?;
        let page = id.arg_usize(2, Value::Data)?;
        let page = if page == usize::MAX {
            page
        } else {
            page + 1
        };
        Ok((ComponentRequest::Results { user, message, page }, guild))
    } else {
        Err(Error::InvalidId(Value::Component, id.name))
    }
}

/// What a press of a poll's button comes to.
#[derive(Debug)]
pub enum ComponentPlan {
    /// Store the draft, from which an input was removed.
    InputRemoved(Form),
    /// Store the poll; the vote stands, or was taken back.
    Voted { form: Form, stands: bool },
    /// Show the voter the modal of the response poll.
    Answer(Modal),
    /// Store the raffle; the voter has entered, or left.
    Entered { form: Form, entered: bool },
    /// Show page `page` of the poll's results.
    Results { form: Form, page: usize },
}

/// What showing results comes to: refused when the results are private and
/// `actor` is not the owner; otherwise the poll with its results, which
/// are computed if it has none.
pub open spec fn results_shown(form: Form, actor: u64, owner: u64, page: usize, r: Result<ComponentPlan>) -> bool {
    if form.content.hide_results && actor != owner {
        r == Err::<ComponentPlan, Error>(Error::Other("The results of this poll are private"))
    } else {
        &&& r matches Ok(ComponentPlan::Results { form: shown, page: shown_page })
        &&& shown_page == page
        &&& shown.user == form.user
        &&& shown.kind == form.kind
        &&& shown.content == form.content
        &&& shown.inputs == form.inputs
        &&& shown.replies == form.replies
        &&& shown.anchor == form.anchor
        &&& match form.output {
            Some(output) => shown.output == Some(output),
            None => shown.output matches Some(made) && made.is_output_of(
                form.kind,
                form.inputs@,
                form.replies@,
            ),
        }
    }
}

/// Decides what a press of a poll's button comes to, given the poll that
/// is stored under the key of the request and who pressed the button.
///
/// Inputs are removed as [`Form::remove_input`] says, votes recorded as
/// [`Form::vote`] says, raffles entered as [`Form::enter_raffle`] says. The
/// modal of a response poll is refused to its owner. Private results are
/// shown to the owner only.
pub fn run_component(request: ComponentRequest, actor: u64, form: Form) -> (r: Result<
    ComponentPlan,
>)
    ensures
        match request {
            ComponentRequest::Remove { user, index } => if user != actor {
                r == Err::<ComponentPlan, Error>(
                    Error::Other("You cannot modify another user's poll"),
                )
            } else {
                match form.remove_refusal(form.user, index) {
                    Some(e) => r matches Err(got) && got@ == e,
                    None => r matches Ok(ComponentPlan::InputRemoved(changed)) && same_but_inputs(
                        &changed,
                        &form,
                    ) && changed.inputs@ == form.inputs@.remove(index as int) && (form.wf()
                        ==> changed.wf()),
                }
            },
            ComponentRequest::Choice { user, index } => match form.vote_refusal(actor, index) {
                Some(e) => r matches Err(got) && got@ == e,
                None => {
                    let held = form.replies@.contains_key(actor) && form.replies@[actor]
                        == Reply::Choice(index);
                    &&& r matches Ok(ComponentPlan::Voted { form: changed, stands })
                    &&& stands == !held
                    &&& same_but_replies(&changed, &form)
                    &&& held ==> changed.replies@ == form.replies@.remove(actor)
                    &&& !held ==> changed.replies@ == form.replies@.insert(
                        actor,
                        Reply::Choice(index),
                    )
                    &&& form.wf() ==> changed.wf()
                },
            },
            ComponentRequest::Response { user } => if user == actor {
                r == Err::<ComponentPlan, Error>(
                    Error::Other("You cannot respond to your own form"),
                )
            } else {
                match form.modal_refusal() {
                    Some(e) => r matches Err(got) && got@ == e,
                    None => r matches Ok(ComponentPlan::Answer(modal)) && modal@ == form.modal(),
                }
            },
            ComponentRequest::Raffle { user } => match form.reply_refusal(
                actor,
                Kind::Raffle,
                "You cannot respond to your own form",
            ) {
                Some(e) => r matches Err(got) && got@ == e,
                None => {
                    let held = form.replies@.contains_key(actor);
                    &&& r matches Ok(ComponentPlan::Entered { form: changed, entered })
                    &&& entered == !held
                    &&& same_but_replies(&changed, &form)
                    &&& held ==> changed.replies@ == form.replies@.remove(actor)
                    &&& !held ==> changed.replies@ == form.replies@.insert(actor, Reply::Raffle)
                    &&& form.wf() ==> changed.wf()
                },
            },
            ComponentRequest::Results { user, message, page } => results_shown(
                form,
                actor,
                user,
                page,
                r,
            ),
        },
{
    let mut form = form;
    match request {
        ComponentRequest::Remove { user, index } => {
            if user != actor {
                return Err(Error::Other("You cannot modify another user's poll"));
            }
            let owner = form.user;
            match form.remove_input(owner, index) {
                Ok(()) => Ok(ComponentPlan::InputRemoved(form)),
                Err(e) => Err(e),
            }
        },
        ComponentRequest::Choice { user, index } => match form.vote(actor, index) {
            Ok(stands) => Ok(ComponentPlan::Voted { form, stands }),
            Err(e) => Err(e),
        },
        ComponentRequest::Response { user } => {
            if user == actor {
                return Err(Error::Other("You cannot respond to your own form"));
            }
            match form.try_as_modal(()) {
                Ok(modal) => Ok(ComponentPlan::Answer(modal)),
                Err(e) => Err(e),
            }
        },
        ComponentRequest::Raffle { user } => match form.enter_raffle(actor) {
            Ok(entered) => Ok(ComponentPlan::Entered { form, entered }),
            Err(e) => Err(e),
        },
        ComponentRequest::Results { user, message, page } => {
            if form.content.hide_results && actor != user {
                return Err(Error::Other("The results of this poll are private"));
            }
            form.output();
            Ok(ComponentPlan::Results { form, page })
        },
    }
}

/// What the identifier of a poll's modal asks for: the owner of the poll
/// that is answered. A name that no modal of a poll has is reported as an
/// invalid modal.
pub open spec fn modal_owner(id: CustomIdView) -> core::result::Result<u64, ErrorView> {
    if id.name != MODAL_SUBMIT@ {
        Err(ErrorView::InvalidId(Value::Modal, id.name))
    } else {
        number_arg(id.args, 0, Value::User)
    }
}

/// Reads the owner of the poll that a submitted modal answers, and the
/// guild in which it was submitted.
pub fn modal_request(text: &str, guild: Option<u64>) -> (r: Result<(u64, u64)>)
    ensures
        match context_spec(text@, guild) {
            Err(e) => r matches Err(got) && got@ == e,
            Ok((id, guild)) => match modal_owner(id) {
                Err(e) => r matches Err(got) && got@ == e,
                Ok(owner) => r == Ok::<(u64, u64), Error>((owner, guild)),
            },
        },
{
    let (id, guild) = context(text, guild)?;
    if !same_text(id.name.as_str(), MODAL_SUBMIT) {
        return Err(Error::InvalidId(Value::Modal, id.name));
    }
    let owner = id.arg_u64(0, Value::User)?;
    Ok((owner, guild))
}

/// The answers that a submitted modal holds to the first `count`
/// questions: what was typed into the field named by the question's
/// position, and `N/A` where nothing was.
pub open spec fn answers_of(rows: Seq<ActionRow>, count: int) -> Seq<Seq<char>>
    decreases count,
{
    if count <= 0 {
        Seq::empty()
    } else {
        answers_of(rows, count - 1).push(
            match input_text(rows, decimal_seq((count - 1) as nat)) {
                Some(text) => text,
                None => "N/A"@,
            },
        )
    }
}

/// Records what `actor` answered in the modal of a response poll, given
/// the poll that is stored for the owner named in the modal's identifier.
/// The poll is to be stored afterwards. Refused as [`Form::respond`]
/// refuses.
pub fn run_modal(form: Form, actor: u64, rows: &[ActionRow]) -> (r: Result<Form>)
    ensures
        match form.reply_refusal(actor, Kind::Response, "You cannot respond to your own form") {
            Some(e) => r matches Err(got) && got@ == e,
            None => {
                &&& r matches Ok(changed)
                &&& same_but_replies(&changed, &form)
                &&& changed.replies@.dom() == form.replies@.dom().insert(actor)
                &&& forall|user: u64|
                    form.replies@.contains_key(user) && user != actor ==> changed.replies@[user]
                        == form.replies@[user]
                &&& changed.replies@[actor] matches Reply::Response(answers)
                    && answers.deep_view() == answers_of(rows@, form.inputs.len() as int)
                &&& form.wf() ==> changed.wf()
            },
        },
{
    let mut form = form;
    let mut answers: Vec<String> = Vec::new();
    let mut index: usize = 0;
    assert(answers.deep_view() == Seq::<Seq<char>>::empty());
    while index < form.inputs.len()
        invariant
            index <= form.inputs.len(),
            answers.deep_view() == answers_of(rows@, index as int),
        decreases form.inputs.len() - index,
    {
        let ghost before = answers.deep_view();
        let name = decimal(index as u64);
        let text = match get_input_text(rows, name.as_str()) {
            Ok(text) => text,
            Err(_) => "N/A".to_owned(),
        };
        let ghost typed = text@;
        answers.push(text);
        assert(answers.deep_view() == before.push(typed));
        index += 1;
    }
    match form.respond(actor, answers) {
        Ok(()) => Ok(form),
        Err(e) => Err(e),
    }
}

/// What the sweep finds of one poll that is listed as open.
#[derive(Clone, Copy, Debug, PartialEq, Eq, Structural)]
pub enum Verdict {
    /// The poll is gone, or was never sent: it does not belong on the
    /// list.
    Stale,
    /// The poll's time is up: it is to be closed.
    Due,
    /// The poll stays open.
    Open,
}

/// What the sweep finds, at the moment `now`, of the poll that is stored
/// for an entry of the list, if one is stored. A poll is due once its
/// duration has passed since its card was posted.
pub open spec fn verdict(form: Option<Form>, now: i64) -> Verdict {
    match form {
        None => Verdict::Stale,
        Some(form) => match form.anchor {
            None => Verdict::Stale,
            Some(anchor) => if anchor.message == 0 {
                Verdict::Stale
            } else if now >= form.deadline(created_millis(anchor.message)) {
                Verdict::Due
            } else {
                Verdict::Open
            },
        },
    }
}

/// Judges one poll that is listed as open.
pub fn judge(form: &Option<Form>, now: i64) -> (v: Verdict)
    ensures
        v == verdict(*form, now),
{
    match form {
        None => Verdict::Stale,
        Some(form) => match form.anchor {
            None => Verdict::Stale,
            Some(anchor) => if anchor.message == 0 {
                Verdict::Stale
            } else if form.is_due(now) {
                Verdict::Due
            } else {
                Verdict::Open
            },
        },
    }
}

/// The keys, among the first `upto` entries, of those found to be `want`,
/// in the order of the entries.
pub open spec fn found(
    entries: Seq<((u64, u64), Option<Form>)>,
    now: i64,
    want: Verdict,
    upto: int,
) -> Seq<(u64, u64)>
    decreases upto,
{
    if upto <= 0 {
        Seq::empty()
    } else {
        let front = found(entries, now, want, upto - 1);
        if verdict(entries[upto - 1].1, now) == want {
            front.push(entries[upto - 1].0)
        } else {
            front
        }
    }
}

/// What a sweep of the list of open polls asks for.
#[derive(Debug)]
pub struct Sweep {
    /// The polls to close, by guild and owner.
    pub due: Vec<(u64, u64)>,
    /// The entries to strike from the list.
    pub stale: Vec<(u64, u64)>,
}

/// Sweeps the list of open polls at the moment `now`. Each entry holds a
/// key of the list and the poll stored for it, if there is one. Polls whose
/// time is up are to be closed; entries whose poll is gone or was never
/// sent are to be struck from the list.
pub fn check_at(entries: &Vec<((u64, u64), Option<Form>)>, now: i64) -> (sweep: Sweep)
    ensures
        sweep.due@ == found(entries@, now, Verdict::Due, entries.len() as int),
        sweep.stale@ == found(entries@, now, Verdict::Stale, entries.len() as int),
{
    let mut due: Vec<(u64, u64)> = Vec::new();
    let mut stale: Vec<(u64, u64)> = Vec::new();
    let mut i: usize = 0;
    while i < entries.len()
        invariant
            i <= entries.len(),
            due@ == found(entries@, now, Verdict::Due, i as int),
            stale@ == found(entries@, now, Verdict::Stale, i as int),
        decreases entries.len() - i,
    {
        match judge(&entries[i].1, now) {
            Verdict::Due => {
                due.push(entries[i].0);
            },
            Verdict::Stale => {
                stale.push(entries[i].0);
            },
            Verdict::Open => {},
        }
        i += 1;
    }
    Sweep { due, stale }
}

/// Sweeps the list of open polls at the present moment.
pub fn check(entries: &Vec<((u64, u64), Option<Form>)>) -> (sweep: Sweep)
    ensures
        exists|now: i64|
            sweep.due@ == found(entries@, now, Verdict::Due, entries.len() as int) && sweep.stale@
                == found(entries@, now, Verdict::Stale, entries.len() as int),
{
    let now = now_millis();
    check_at(entries, now)
}

} // verus!
