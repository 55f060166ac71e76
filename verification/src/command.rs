//! The commands of the bot, and how they read their options.

use vstd::prelude::*;

use crate::utility::custom_id::decode;
use crate::utility::custom_id::CustomId;
use crate::utility::custom_id::CustomIdView;
use crate::utility::platform::ActionRow;
use crate::utility::platform::ActionRowComponent;
use crate::utility::platform::ResolvedOption;
use crate::utility::platform::ResolvedValue;
use crate::utility::platform::Role;
use crate::utility::text::same_text;
use crate::utility::Error;
use crate::utility::ErrorView;
use crate::utility::Result;
use crate::utility::Value;

pub mod apply;
pub mod data;
pub mod embed;
pub mod help;
pub mod offer;
pub mod oracle;
pub mod ping;
pub mod poll;
pub mod quote;
pub mod role;

verus! {

/// The value of the first option called `n`, if there is one.
pub open spec fn option_named(o: Seq<ResolvedOption>, n: Seq<char>) -> Option<ResolvedValue>
    decreases o.len(),
{
    if o.len() == 0 {
        None
    } else if o[0].name@ == n {
        Some(o[0].value)
    } else {
        option_named(o.drop_first(), n)
    }
}

/// What reading an option of one kind gives: the value picked out of the
/// option by `pick`, the missing value when no option has the name, and the
/// name as an invalid value when the option is of another kind.
pub open spec fn typed_option<T>(
    o: Seq<ResolvedOption>,
    n: Seq<char>,
    pick: spec_fn(ResolvedValue) -> Option<T>,
) -> core::result::Result<T, ErrorView> {
    match option_named(o, n) {
        None => Err(ErrorView::MissingValue(Value::Data)),
        Some(value) => match pick(value) {
            Some(t) => Ok(t),
            None => Err(ErrorView::InvalidValue(Value::Data, n)),
        },
    }
}

/// The truth value that an option holds, if it holds one.
pub open spec fn pick_bool(value: ResolvedValue) -> Option<bool> {
    match value {
        ResolvedValue::Boolean(b) => Some(b),
        _ => None,
    }
}

/// The channel that an option names, if it names one.
pub open spec fn pick_channel(value: ResolvedValue) -> Option<u64> {
    match value {
        ResolvedValue::Channel(id) => Some(id),
        _ => None,
    }
}

/// The whole number that an option holds, if it holds one.
pub open spec fn pick_i64(value: ResolvedValue) -> Option<i64> {
    match value {
        ResolvedValue::Integer(i) => Some(i),
        _ => None,
    }
}

/// The role that an option names, if it names one.
pub open spec fn pick_role(value: ResolvedValue) -> Option<Role> {
    match value {
        ResolvedValue::Role(role) => Some(role),
        _ => None,
    }
}

/// The text that an option holds, if it holds one.
pub open spec fn pick_str(value: ResolvedValue) -> Option<Seq<char>> {
    match value {
        ResolvedValue::String(text) => Some(text@),
        _ => None,
    }
}

/// The options of a subcommand, if the option is one.
pub open spec fn pick_subcommand(value: ResolvedValue) -> Option<Seq<ResolvedOption>> {
    match value {
        ResolvedValue::SubCommand(options) => Some(options@),
        _ => None,
    }
}

/// The options of a group of subcommands, if the option is one.
pub open spec fn pick_subcommand_group(value: ResolvedValue) -> Option<Seq<ResolvedOption>> {
    match value {
        ResolvedValue::SubCommandGroup(options) => Some(options@),
        _ => None,
    }
}

/// The user that an option names, if it names one.
pub open spec fn pick_user(value: ResolvedValue) -> Option<u64> {
    match value {
        ResolvedValue::User(id) => Some(id),
        _ => None,
    }
}

/// What [`get_bool`] gives.
pub open spec fn bool_option(o: Seq<ResolvedOption>, n: Seq<char>) -> core::result::Result<
    bool,
    ErrorView,
> {
    typed_option(o, n, |v: ResolvedValue| pick_bool(v))
}

/// What [`get_channel`] gives.
pub open spec fn channel_option(o: Seq<ResolvedOption>, n: Seq<char>) -> core::result::Result<
    u64,
    ErrorView,
> {
    typed_option(o, n, |v: ResolvedValue| pick_channel(v))
}

/// What [`get_i64`] gives.
pub open spec fn i64_option(o: Seq<ResolvedOption>, n: Seq<char>) -> core::result::Result<
    i64,
    ErrorView,
> {
    typed_option(o, n, |v: ResolvedValue| pick_i64(v))
}

/// What [`get_role`] gives.
pub open spec fn role_option(o: Seq<ResolvedOption>, n: Seq<char>) -> core::result::Result<
    Role,
    ErrorView,
> {
    typed_option(o, n, |v: ResolvedValue| pick_role(v))
}

/// What [`get_str`] gives.
pub open spec fn str_option(o: Seq<ResolvedOption>, n: Seq<char>) -> core::result::Result<
    Seq<char>,
    ErrorView,
> {
    typed_option(o, n, |v: ResolvedValue| pick_str(v))
}

/// What [`get_subcommand`] gives.
pub open spec fn subcommand_option(o: Seq<ResolvedOption>, n: Seq<char>) -> core::result::Result<
    Seq<ResolvedOption>,
    ErrorView,
> {
    typed_option(o, n, |v: ResolvedValue| pick_subcommand(v))
}

/// What [`get_subcommand_group`] gives.
pub open spec fn group_option(o: Seq<ResolvedOption>, n: Seq<char>) -> core::result::Result<
    Seq<ResolvedOption>,
    ErrorView,
> {
    typed_option(o, n, |v: ResolvedValue| pick_subcommand_group(v))
}

/// What [`get_user`] gives.
pub open spec fn user_option(o: Seq<ResolvedOption>, n: Seq<char>) -> core::result::Result<
    u64,
    ErrorView,
> {
    typed_option(o, n, |v: ResolvedValue| pick_user(v))
}

/// The text of an optional option: nothing when the option is missing or
/// of another kind.
pub open spec fn optional_str(o: Seq<ResolvedOption>, n: Seq<char>) -> Option<Seq<char>> {
    match str_option(o, n) {
        Ok(text) => Some(text),
        Err(_) => None,
    }
}

/// The truth value of an optional option: nothing when the option is
/// missing or of another kind.
pub open spec fn optional_bool(o: Seq<ResolvedOption>, n: Seq<char>) -> Option<bool> {
    match bool_option(o, n) {
        Ok(b) => Some(b),
        Err(_) => None,
    }
}

/// The number in an optional option: nothing when the option is missing
/// or of another kind.
pub open spec fn optional_i64(o: Seq<ResolvedOption>, n: Seq<char>) -> Option<i64> {
    match i64_option(o, n) {
        Ok(i) => Some(i),
        Err(_) => None,
    }
}

/// The value of the first option called `n`.
pub fn get_any<'c>(o: &'c [ResolvedOption], n: &str) -> (r: Result<&'c ResolvedValue>)
    ensures
        match option_named(o@, n@) {
            Some(value) => r == Ok::<&ResolvedValue, Error>(&value),
            None => r == Err::<&ResolvedValue, Error>(Error::MissingValue(Value::Data)),
        },
{
    let mut i: usize = 0;
    assert(o@.skip(0) == o@);
    while i < o.len()
        invariant
            i <= o.len(),
            option_named(o@, n@) == option_named(o@.skip(i as int), n@),
        decreases o.len() - i,
    {
        proof {
            assert(o@.skip(i as int)[0] == o@[i as int]);
            assert(o@.skip(i as int).drop_first() == o@.skip(i + 1));
        }
        if same_text(o[i].name.as_str(), n) {
            return Ok(&o[i].value);
        }
        i += 1;
    }
    Err(Error::MissingValue(Value::Data))
}

/// The error for an option of the wrong kind.
fn wrong_kind(n: &str) -> (e: Error)
    ensures
        e@ == ErrorView::InvalidValue(Value::Data, n@),
{
    Error::InvalidValue(Value::Data, n.to_owned())
}

/// The truth value of the option called `n`.
pub fn get_bool(o: &[ResolvedOption], n: &str) -> (r: Result<bool>)
    ensures
        match bool_option(o@, n@) {
            Ok(b) => r == Ok::<bool, Error>(b),
            Err(e) => r matches Err(got) && got@ == e,
        },
{
    match get_any(o, n)? {
        ResolvedValue::Boolean(b) => Ok(*b),
        _ => Err(wrong_kind(n)),
    }
}

/// The channel that the option called `n` names.
pub fn get_channel(o: &[ResolvedOption], n: &str) -> (r: Result<u64>)
    ensures
        match channel_option(o@, n@) {
            Ok(id) => r == Ok::<u64, Error>(id),
            Err(e) => r matches Err(got) && got@ == e,
        },
{
    match get_any(o, n)? {
        ResolvedValue::Channel(id) => Ok(*id),
        _ => Err(wrong_kind(n)),
    }
}

/// The whole number in the option called `n`.
pub fn get_i64(o: &[ResolvedOption], n: &str) -> (r: Result<i64>)
    ensures
        match i64_option(o@, n@) {
            Ok(i) => r == Ok::<i64, Error>(i),
            Err(e) => r matches Err(got) && got@ == e,
        },
{
    match get_any(o, n)? {
        ResolvedValue::Integer(i) => Ok(*i),
        _ => Err(wrong_kind(n)),
    }
}

/// The role that the option called `n` names.
pub fn get_role<'c>(o: &'c [ResolvedOption], n: &str) -> (r: Result<&'c Role>)
    ensures
        match role_option(o@, n@) {
            Ok(role) => r == Ok::<&Role, Error>(&role),
            Err(e) => r matches Err(got) && got@ == e,
        },
{
    match get_any(o, n)? {
        ResolvedValue::Role(role) => Ok(role),
        _ => Err(wrong_kind(n)),
    }
}

/// The text in the option called `n`.
pub fn get_str<'c>(o: &'c [ResolvedOption], n: &str) -> (r: Result<&'c str>)
    ensures
        match str_option(o@, n@) {
            Ok(text) => r matches Ok(got) && got@ == text,
            Err(e) => r matches Err(got) && got@ == e,
        },
{
    match get_any(o, n)? {
        ResolvedValue::String(text) => Ok(text.as_str()),
        _ => Err(wrong_kind(n)),
    }
}

/// The options of the subcommand called `n`.
pub fn get_subcommand<'c>(o: &'c [ResolvedOption], n: &str) -> (r: Result<&'c [ResolvedOption]>)
    ensures
        match subcommand_option(o@, n@) {
            Ok(options) => r matches Ok(got) && got@ == options,
            Err(e) => r matches Err(got) && got@ == e,
        },
{
    match get_any(o, n)? {
        ResolvedValue::SubCommand(options) => Ok(options.as_slice()),
        _ => Err(wrong_kind(n)),
    }
}

/// The options of the group of subcommands called `n`.
pub fn get_subcommand_group<'c>(o: &'c [ResolvedOption], n: &str) -> (r: Result<
    &'c [ResolvedOption],
>)
    ensures
        match group_option(o@, n@) {
            Ok(options) => r matches Ok(got) && got@ == options,
            Err(e) => r matches Err(got) && got@ == e,
        },
{
    match get_any(o, n)? {
        ResolvedValue::SubCommandGroup(options) => Ok(options.as_slice()),
        _ => Err(wrong_kind(n)),
    }
}

/// The user that the option called `n` names.
pub fn get_user(o: &[ResolvedOption], n: &str) -> (r: Result<u64>)
    ensures
        match user_option(o@, n@) {
            Ok(id) => r == Ok::<u64, Error>(id),
            Err(e) => r matches Err(got) && got@ == e,
        },
{
    match get_any(o, n)? {
        ResolvedValue::User(id) => Ok(*id),
        _ => Err(wrong_kind(n)),
    }
}

/// The text typed into the field called `n` of a submitted modal: that of
/// the first row whose first component is a text field of that name with
/// something in it.
pub open spec fn input_text(o: Seq<ActionRow>, n: Seq<char>) -> Option<Seq<char>>
    decreases o.len(),
{
    if o.len() == 0 {
        None
    } else if row_answers(o[0], n) {
        Some(o[0].components[0]->InputText_0.value@)
    } else {
        input_text(o.drop_first(), n)
    }
}

/// Whether the row's first component is a filled text field called `n`.
pub open spec fn row_answers(row: ActionRow, n: Seq<char>) -> bool {
    &&& row.components.len() > 0
    &&& row.components[0] is InputText
    &&& row.components[0]->InputText_0.custom_id@ == n
    &&& row.components[0]->InputText_0.value@.len() > 0
}

/// The text typed into the field called `n` of a submitted modal.
pub fn get_input_text(o: &[ActionRow], n: &str) -> (r: Result<String>)
    ensures
        match input_text(o@, n@) {
            Some(text) => r matches Ok(got) && got@ == text,
            None => r == Err::<String, Error>(Error::MissingValue(Value::Data)),
        },
{
    let mut i: usize = 0;
    assert(o@.skip(0) == o@);
    while i < o.len()
        invariant
            i <= o.len(),
            input_text(o@, n@) == input_text(o@.skip(i as int), n@),
        decreases o.len() - i,
    {
        proof {
            assert(o@.skip(i as int)[0] == o@[i as int]);
            assert(o@.skip(i as int).drop_first() == o@.skip(i + 1));
        }
        let row = &o[i];
        if row.components.len() > 0 {
            match &row.components[0] {
                ActionRowComponent::InputText(input) => {
                    if same_text(input.custom_id.as_str(), n) && input.value.as_str().unicode_len()
                        > 0 {
                        return Ok(input.value.clone());
                    }
                },
                _ => {},
            }
        }
        i += 1;
    }
    Err(Error::MissingValue(Value::Data))
}

/// The text of the option called `n`, if there is such a text.
pub fn find_str<'c>(o: &'c [ResolvedOption], n: &str) -> (r: Option<&'c str>)
    ensures
        r.deep_view() == optional_str(o@, n@),
{
    match get_str(o, n) {
        Ok(text) => Some(text),
        Err(_) => None,
    }
}

/// The truth value of the option called `n`, if there is one.
pub fn find_bool(o: &[ResolvedOption], n: &str) -> (r: Option<bool>)
    ensures
        r == optional_bool(o@, n@),
{
    match get_bool(o, n) {
        Ok(b) => Some(b),
        Err(_) => None,
    }
}

/// The number in the option called `n`, if there is one.
pub fn find_i64(o: &[ResolvedOption], n: &str) -> (r: Option<i64>)
    ensures
        r == optional_i64(o@, n@),
{
    match get_i64(o, n) {
        Ok(i) => Some(i),
        Err(_) => None,
    }
}

/// What a component or modal starts from: the identifier it carries, and
/// the guild it was used in. The identifier is read first.
pub open spec fn context_spec(text: Seq<char>, guild: Option<u64>) -> core::result::Result<
    (CustomIdView, u64),
    ErrorView,
> {
    match decode(text) {
        None => Err(ErrorView::InvalidId(Value::CustomId, text)),
        Some(id) => match guild {
            None => Err(ErrorView::MissingId(Value::Guild)),
            Some(guild) => Ok((id, guild)),
        },
    }
}

/// Reads the identifier that a component or modal carries, and makes sure
/// that it was used in a guild.
pub fn context(text: &str, guild: Option<u64>) -> (r: Result<(CustomId, u64)>)
    ensures
        match context_spec(text@, guild) {
            Ok((id, guild)) => r matches Ok(got) && got.0@ == id && got.1 == guild,
            Err(e) => r matches Err(got) && got@ == e,
        },
{
    let id = CustomId::try_from(text)?;
    match guild {
        Some(guild) => Ok((id, guild)),
        None => Err(Error::MissingId(Value::Guild)),
    }
}

} // verus!
