//! Role selectors: a draft collects roles with their icons, and sending it
//! posts one button for each, with which a member takes or drops the role.

use vstd::prelude::*;
use vstd::string::*;

use crate::command::get_role;
use crate::command::get_str;
use crate::command::get_subcommand;
use crate::command::role_option;
use crate::command::str_option;
use crate::command::subcommand_option;
use crate::utility::custom_id::decode;
use crate::utility::custom_id::encode;
use crate::utility::custom_id::CustomId;
use crate::utility::platform::reaction_of;
use crate::utility::platform::Button;
use crate::utility::platform::CommandOptionType;
use crate::utility::platform::CommandSchema;
use crate::utility::platform::OptionSchema;
use crate::utility::platform::MANAGE_ROLES;
use crate::utility::platform::ButtonStyle;
use crate::utility::platform::ButtonView;
use crate::utility::platform::Emoji;
use crate::utility::platform::ResolvedOption;
use crate::utility::req::AsReq;
use crate::utility::req::NewReq;
use crate::utility::req::Req;
use crate::utility::req::ReqView;
use crate::utility::seqs::lemma_take_contains;
use crate::utility::text::decimal;
use crate::utility::text::decimal_seq;
use crate::utility::req::lemma_path_injective;
use crate::utility::text::is_digit;
use crate::utility::text::lemma_decimal_injective;
use crate::utility::text::lemma_decimal_value;
use crate::utility::text::parse_u64;
use crate::utility::text::parse_u64_seq;
use crate::utility::text::push_char;
use crate::utility::text::same_text;
use crate::utility::Error;
use crate::utility::ErrorView;
use crate::utility::Result;
use crate::utility::Value;

verus! {

/// The name of the command, and the base of its components' identifiers.
pub const NAME: &'static str = "role";

pub const CM_TOGGLE: &'static str = "role_toggle";

pub const SC_CREATE: &'static str = "create";

pub const SC_REMOVE: &'static str = "remove";

pub const SC_LIST: &'static str = "list";

pub const SC_SEND: &'static str = "send";

pub const OP_ROLE: &'static str = "role";

pub const OP_ICON: &'static str = "icon";

pub const OP_TEXT: &'static str = "text";

/// A role that members can take or drop, and the icon of its button.
#[derive(Debug)]
pub struct Toggle {
    pub role: u64,
    pub icon: Emoji,
}

impl Toggle {
    /// The button of the toggle, labelled with the role's name.
    pub open spec fn button(&self, disabled: bool, name: Seq<char>) -> ButtonView {
        ButtonView {
            custom_id: encode(CM_TOGGLE@, seq![decimal_seq(self.role as nat)]),
            disabled,
            emoji: Some(self.icon@),
            label: Some(name),
            style: ButtonStyle::Secondary,
        }
    }

    /// The button with which a member takes or drops the role. `name` is
    /// the role's name in the guild; a role that the guild does not have
    /// is reported as an invalid role.
    pub fn as_button(&self, disabled: bool, name: Option<&str>) -> (r: Result<Button>)
        ensures
            match name {
                Some(name) => r matches Ok(button) && button@ == self.button(disabled, name@),
                None => r matches Err(e) && e@ == ErrorView::InvalidId(
                    Value::Role,
                    decimal_seq(self.role as nat),
                ),
            },
    {
        let name = match name {
            Some(name) => name,
            None => {
                return Err(Error::InvalidId(Value::Role, decimal(self.role)));
            },
        };
        let custom_id = CustomId::new(CM_TOGGLE).arg_number(self.role);
        proof {
            let empty = Seq::<Seq<char>>::empty();
            assert(empty.push(decimal_seq(self.role as nat)) == seq![decimal_seq(self.role as nat)]);
        }
        Ok(
            Button::new(custom_id.to_string()).disabled(disabled).icon(
                self.icon.duplicate(),
            ).label(name).style(ButtonStyle::Secondary),
        )
    }
}

/// A draft of a role selector.
#[derive(Debug)]
pub struct Selector {
    pub user: u64,
    pub guild: u64,
    pub roles: Vec<Toggle>,
}

/// The key of the draft of `user` in `guild`.
pub open spec fn selector_req(guild: u64, user: u64) -> ReqView {
    ReqView { dir: NAME@ + seq!['/'] + decimal_seq(guild as nat), key: decimal_seq(user as nat) }
}

/// Different users, or different guilds, never share a file.
pub proof fn lemma_selector_path_injective(guild_a: u64, user_a: u64, guild_b: u64, user_b: u64)
    requires
        selector_req(guild_a, user_a).path() == selector_req(guild_b, user_b).path(),
    ensures
        guild_a == guild_b,
        user_a == user_b,
{
    lemma_decimal_value(user_a as nat);
    lemma_decimal_value(user_b as nat);
    let a = decimal_seq(user_a as nat);
    let b = decimal_seq(user_b as nat);
    assert forall|i: int| 0 <= i < a.len() implies a[i] != '/' by {
        assert(is_digit(a[i]));
    }
    assert forall|i: int| 0 <= i < b.len() implies b[i] != '/' by {
        assert(is_digit(b[i]));
    }
    lemma_path_injective(
        selector_req(guild_a, user_a),
        selector_req(guild_b, user_b),
    );
    lemma_selector_req_injective(guild_a, user_a, guild_b, user_b);
}

/// Different users, or different guilds, never share a key.
pub proof fn lemma_selector_req_injective(guild_a: u64, user_a: u64, guild_b: u64, user_b: u64)
    requires
        selector_req(guild_a, user_a) == selector_req(guild_b, user_b),
    ensures
        guild_a == guild_b,
        user_a == user_b,
{
    let prefix = NAME@ + seq!['/'];
    let a = decimal_seq(guild_a as nat);
    let b = decimal_seq(guild_b as nat);
    assert((prefix + a).skip(prefix.len() as int) == a);
    assert((prefix + b).skip(prefix.len() as int) == b);
    lemma_decimal_injective(guild_a as nat, guild_b as nat);
    lemma_decimal_injective(user_a as nat, user_b as nat);
}

/// `roles` without the toggles of `role`, in the same order.
pub open spec fn without(roles: Seq<Toggle>, role: u64) -> Seq<Toggle>
    decreases roles.len(),
{
    if roles.len() == 0 {
        roles
    } else if roles.last().role == role {
        without(roles.drop_last(), role)
    } else {
        without(roles.drop_last(), role).push(roles.last())
    }
}

/// Taking out one toggle of `role` changes nothing of what is left
/// without that role.
proof fn lemma_without_remove(roles: Seq<Toggle>, role: u64, i: int)
    requires
        0 <= i < roles.len(),
        roles[i].role == role,
    ensures
        without(roles.remove(i), role) == without(roles, role),
    decreases roles.len(),
{
    if i == roles.len() - 1 {
        assert(roles.remove(i) == roles.drop_last());
    } else {
        let shorter = roles.remove(i);
        assert(shorter.last() == roles.last());
        assert(shorter.drop_last() == roles.drop_last().remove(i));
        lemma_without_remove(roles.drop_last(), role, i);
    }
}

/// A list that holds no toggle of `role` is left as it is.
proof fn lemma_without_none(roles: Seq<Toggle>, role: u64)
    requires
        forall|i: int| 0 <= i < roles.len() ==> (#[trigger] roles[i]).role != role,
    ensures
        without(roles, role) == roles,
    decreases roles.len(),
{
    if roles.len() > 0 {
        let front = roles.drop_last();
        assert forall|i: int| 0 <= i < front.len() implies (#[trigger] front[i]).role != role by {
            assert(front[i] == roles[i]);
        }
        lemma_without_none(front, role);
        assert(roles.last() == roles[roles.len() - 1]);
        assert(front.push(roles.last()) == roles);
    }
}

impl Selector {
    /// An empty draft.
    pub fn new(user: u64, guild: u64) -> (selector: Self)
        ensures
            selector.user == user,
            selector.guild == guild,
            selector.roles@ == Seq::<Toggle>::empty(),
    {
        Selector { user, guild, roles: Vec::new() }
    }

    /// Adds a role with its icon at the end of the draft.
    pub fn add(&mut self, role: u64, icon: Emoji)
        ensures
            final(self).user == old(self).user,
            final(self).guild == old(self).guild,
            final(self).roles@ == old(self).roles@.push(Toggle { role, icon }),
    {
        self.roles.push(Toggle { role, icon });
    }

    /// Takes every toggle of `role` out of the draft.
    pub fn remove(&mut self, role: u64)
        ensures
            final(self).user == old(self).user,
            final(self).guild == old(self).guild,
            final(self).roles@ == without(old(self).roles@, role),
    {
        let mut i: usize = 0;
        while i < self.roles.len()
            invariant
                i <= self.roles.len(),
                self.user == old(self).user,
                self.guild == old(self).guild,
                without(self.roles@, role) == without(old(self).roles@, role),
                forall|j: int| 0 <= j < i ==> (#[trigger] self.roles@[j]).role != role,
            decreases self.roles.len() - i,
        {
            if self.roles[i].role == role {
                proof {
                    lemma_without_remove(self.roles@, role, i as int);
                }
                self.roles.remove(i);
            } else {
                i += 1;
            }
        }
        proof {
            lemma_without_none(self.roles@, role);
        }
    }
}

impl NewReq<(u64, u64)> for Selector {
    open spec fn req_spec(args: (u64, u64)) -> ReqView {
        selector_req(args.0, args.1)
    }

    /// The key of the draft of the user `args.1` in the guild `args.0`.
    fn new_req(args: (u64, u64)) -> (req: Req<Self>) {
        let mut dir = String::from_str(NAME);
        let ghost name = dir@;
        push_char(&mut dir, '/');
        assert(dir@ == name + seq!['/']);
        dir.append(decimal(args.0).as_str());
        Req::new(dir.as_str(), decimal(args.1).as_str())
    }
}

impl AsReq<()> for Selector {
    open spec fn as_req_spec(&self, args: ()) -> ReqView {
        selector_req(self.guild, self.user)
    }

    fn as_req(&self, args: ()) -> (req: Req<Self>) {
        <Selector as NewReq<(u64, u64)>>::new_req((self.guild, self.user))
    }
}

/// The command as it is registered.
pub fn new() -> (command: CommandSchema)
    ensures
        command.name@ == NAME@,
        command.description@ == "Create or manage role selectors"@,
        command.default_member_permissions == MANAGE_ROLES,
        !command.dm_permission,
        command.option_names() == seq![SC_CREATE@, SC_REMOVE@, SC_LIST@, SC_SEND@],
{
    let command = CommandSchema::new(NAME).default_member_permissions(MANAGE_ROLES).description(
        "Create or manage role selectors",
    ).dm_permission(false).add_option(
        OptionSchema::new(
            CommandOptionType::SubCommand,
            SC_CREATE,
            "Creates a new role selector",
        ).add_sub_option(
            OptionSchema::new(
                CommandOptionType::Role,
                OP_ROLE,
                "The selector's linked role",
            ).required(true),
        ).add_sub_option(
            OptionSchema::new(CommandOptionType::String, OP_ICON, "The selector's icon").required(
                true,
            ),
        ),
    ).add_option(
        OptionSchema::new(
            CommandOptionType::SubCommand,
            SC_REMOVE,
            "Deletes a role selector",
        ).add_sub_option(
            OptionSchema::new(
                CommandOptionType::Role,
                OP_ROLE,
                "The selector's linked role",
            ).required(true),
        ),
    ).add_option(
        OptionSchema::new(
            CommandOptionType::SubCommand,
            SC_LIST,
            "Lists all current role selectors",
        ),
    ).add_option(
        OptionSchema::new(
            CommandOptionType::SubCommand,
            SC_SEND,
            "Sends the current roles selectors",
        ).add_sub_option(
            OptionSchema::new(
                CommandOptionType::String,
                OP_TEXT,
                "The title of the role selector's embed",
            ).max_length(256).required(true),
        ),
    );
    assert(command.option_names() == seq![SC_CREATE@, SC_REMOVE@, SC_LIST@, SC_SEND@]);
    command
}

/// What the command does once its checks have passed.
#[derive(Debug)]
pub enum CommandPlan {
    /// Store the draft, to which the role called `name` was added.
    Created { selector: Selector, name: String },
    /// Store the draft, from which the role called `name` was removed.
    Removed { selector: Selector, name: String },
    /// Show the draft's buttons to its owner, switched off.
    List(Selector),
    /// Post the draft's buttons under the given title, and remove the
    /// draft.
    Send { selector: Selector, title: String },
}

/// What `create` comes to: the role and the icon are required, in this
/// order, and a text that is no emoji is reported as an invalid role.
pub open spec fn created(
    user: u64,
    guild: u64,
    roles: Seq<Toggle>,
    o: Seq<ResolvedOption>,
    r: Result<CommandPlan>,
) -> bool {
    match role_option(o, OP_ROLE@) {
        Err(e) => r matches Err(got) && got@ == e,
        Ok(role) => match str_option(o, OP_ICON@) {
            Err(e) => r matches Err(got) && got@ == e,
            Ok(text) => match reaction_of(text) {
                None => r matches Err(got) && got@ == ErrorView::InvalidId(Value::Role, text),
                Some(icon) => {
                    &&& r matches Ok(CommandPlan::Created { selector: changed, name })
                    &&& name@ == role.name@
                    &&& changed.user == user
                    &&& changed.guild == guild
                    &&& changed.roles@.len() == roles.len() + 1
                    &&& changed.roles@.drop_last() == roles
                    &&& changed.roles@.last().role == role.id
                    &&& changed.roles@.last().icon@ == icon
                },
            },
        },
    }
}

fn create(selector: Selector, o: &[ResolvedOption]) -> (r: Result<CommandPlan>)
    ensures
        created(selector.user, selector.guild, selector.roles@, o@, r),
{
    let mut selector = selector;
    let role = get_role(o, OP_ROLE)?;
    let text = get_str(o, OP_ICON)?;
    let icon = match Emoji::parse(text) {
        Some(icon) => icon,
        None => {
            return Err(Error::InvalidId(Value::Role, text.to_owned()));
        },
    };
    let ghost before = selector.roles@;
    selector.add(role.id, icon);
    assert(selector.roles@.drop_last() == before);
    Ok(CommandPlan::Created { selector, name: role.name.clone() })
}

/// Decides what the command does.
///
/// `existing` is the draft that is stored for the user; without one the
/// command starts from an empty draft. Outside a guild the command fails
/// for want of the guild. Otherwise the first subcommand that is present
/// decides, in the order `create`, `remove`, `list`, `send`; if none is,
/// the command's name is reported as an invalid command.
pub fn run_command(
    guild: Option<u64>,
    user: u64,
    name: &str,
    o: &[ResolvedOption],
    existing: Option<Selector>,
) -> (r: Result<CommandPlan>)
    ensures
        guild is None ==> r == Err::<CommandPlan, Error>(Error::MissingValue(Value::Guild)),
        guild matches Some(guild) ==> ({
            let owner = match existing {
                Some(selector) => selector.user,
                None => user,
            };
            let home = match existing {
                Some(selector) => selector.guild,
                None => guild,
            };
            let roles = match existing {
                Some(selector) => selector.roles@,
                None => Seq::<Toggle>::empty(),
            };
            if subcommand_option(o@, SC_CREATE@) is Ok {
                created(owner, home, roles, subcommand_option(o@, SC_CREATE@)->Ok_0, r)
            } else if subcommand_option(o@, SC_REMOVE@) is Ok {
                match role_option(subcommand_option(o@, SC_REMOVE@)->Ok_0, OP_ROLE@) {
                    Err(e) => r matches Err(got) && got@ == e,
                    Ok(role) => {
                        &&& r matches Ok(CommandPlan::Removed { selector, name })
                        &&& name@ == role.name@
                        &&& selector.user == owner
                        &&& selector.guild == home
                        &&& selector.roles@ == without(roles, role.id)
                    },
                }
            } else if subcommand_option(o@, SC_LIST@) is Ok {
                &&& r matches Ok(CommandPlan::List(selector))
                &&& selector.user == owner
                &&& selector.guild == home
                &&& selector.roles@ == roles
            } else if subcommand_option(o@, SC_SEND@) is Ok {
                if roles.len() == 0 {
                    r == Err::<CommandPlan, Error>(Error::Other("No selectors have been created"))
                } else {
                    match str_option(subcommand_option(o@, SC_SEND@)->Ok_0, OP_TEXT@) {
                        Err(e) => r matches Err(got) && got@ == e,
                        Ok(text) => {
                            &&& r matches Ok(CommandPlan::Send { selector, title })
                            &&& title@ == text
                            &&& selector.user == owner
                            &&& selector.guild == home
                            &&& selector.roles@ == roles
                        },
                    }
                }
            } else {
                r matches Err(e) && e@ == ErrorView::InvalidId(Value::Command, name@)
            }
        }),
{
    let guild = match guild {
        Some(guild) => guild,
        None => {
            return Err(Error::MissingValue(Value::Guild));
        },
    };
    let mut selector = match existing {
        Some(selector) => selector,
        None => Selector::new(user, guild),
    };
    if let Ok(sub) = get_subcommand(o, SC_CREATE) {
        create(selector, sub)
    } else if let Ok(sub) = get_subcommand(o, SC_REMOVE) {
        let role = get_role(sub, OP_ROLE)?;
        selector.remove(role.id);
        Ok(CommandPlan::Removed { selector, name: role.name.clone() })
    } else if get_subcommand(o, SC_LIST).is_ok() {
        Ok(CommandPlan::List(selector))
    } else if let Ok(sub) = get_subcommand(o, SC_SEND) {
        if selector.roles.len() == 0 {
            return Err(Error::Other("No selectors have been created"));
        }
        let title = get_str(sub, OP_TEXT)?.to_owned();
        Ok(CommandPlan::Send { selector, title })
    } else {
        Err(Error::InvalidId(Value::Command, name.to_owned()))
    }
}

/// What a press of a selector's button does to the member who pressed.
#[derive(Clone, Copy, Debug, PartialEq, Eq, Structural)]
pub enum RoleChange {
    /// The member gets the role.
    Add(u64),
    /// The member loses the role.
    Remove(u64),
}

/// The role that the identifier of a selector's button names: the number in
/// its first argument.
pub open spec fn toggled_role(text: Seq<char>) -> core::result::Result<u64, ErrorView> {
    match decode(text) {
        None => Err(ErrorView::InvalidId(Value::CustomId, text)),
        Some(id) => if id.name != CM_TOGGLE@ {
            Err(ErrorView::InvalidId(Value::Component, id.name))
        } else if id.args.len() == 0 {
            Err(ErrorView::MissingValue(Value::Data))
        } else {
            match parse_u64_seq(id.args[0]) {
                Some(role) => Ok(role),
                None => Err(ErrorView::MissingValue(Value::Data)),
            }
        },
    }
}

/// Decides what a press of a selector's button does: the member who
/// pressed loses the role if they hold it, and gets it otherwise. `roles`
/// are the roles that the member holds; it is absent when the button was
/// not pressed by a member of a guild.
#[verifier::loop_isolation(false)]
pub fn run_component(text: &str, roles: Option<&[u64]>) -> (r: Result<RoleChange>)
    ensures
        match toggled_role(text@) {
            Err(e) => r matches Err(got) && got@ == e,
            Ok(role) => match roles {
                None => r == Err::<RoleChange, Error>(Error::MissingValue(Value::Member)),
                Some(held) => r == Ok::<RoleChange, Error>(
                    if held@.contains(role) {
                        RoleChange::Remove(role)
                    } else {
                        RoleChange::Add(role)
                    },
                ),
            },
        },
{
    let id = CustomId::try_from(text)?;
    if !same_text(id.name.as_str(), CM_TOGGLE) {
        return Err(Error::InvalidId(Value::Component, id.name));
    }
    if id.args.len() == 0 {
        return Err(Error::MissingValue(Value::Data));
    }
    let role = match parse_u64(id.args[0].as_str()) {
        Some(role) => role,
        None => {
            return Err(Error::MissingValue(Value::Data));
        },
    };
    let held = match roles {
        Some(held) => held,
        None => {
            return Err(Error::MissingValue(Value::Member));
        },
    };
    let mut i: usize = 0;
    while i < held.len()
        invariant
            i <= held.len(),
            !held@.take(i as int).contains(role),
        decreases held.len() - i,
    {
        if held[i] == role {
            assert(held@[i as int] == role);
            return Ok(RoleChange::Remove(role));
        }
        proof {
            lemma_take_contains(held@, i as int);
        }
        i += 1;
    }
    assert(held@.take(held.len() as int) == held@);
    Ok(RoleChange::Add(role))
}

} // verus!
