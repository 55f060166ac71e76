//! Values shared by every command: the error type, and the helpers under
//! the modules below.

use vstd::prelude::*;
use vstd::string::*;

use crate::utility::text::parse_u64;
use crate::utility::text::parse_u64_seq;

pub mod anchor;
pub mod chance;
pub mod clock;
pub mod custom_id;
pub mod formatting;
pub mod handler;
pub mod platform;
pub mod req;
pub mod seqs;
pub mod text;
pub mod traits;

verus! {

/// The accent colour of the bot's own embeds, as `0xRRGGBB`.
pub const BOT_COLOR: u32 = 0xAC5A6E;

/// What kind of thing an error speaks of.
#[derive(Clone, Copy, Debug, PartialEq, Eq)]
pub enum Value {
    Anchor,
    Channel,
    Command,
    Component,
    CustomId,
    Data,
    Guild,
    Interaction,
    Member,
    Message,
    Modal,
    Role,
    User,
    Other(&'static str),
}

impl Value {
    /// The word under which the kind appears in messages.
    pub open spec fn label(self) -> Seq<char> {
        match self {
            Value::Anchor => "Anchor"@,
            Value::Channel => "Channel"@,
            Value::Command => "Command"@,
            Value::Component => "Component"@,
            Value::CustomId => "CustomId"@,
            Value::Data => "Data"@,
            Value::Guild => "Guild"@,
            Value::Interaction => "Interaction"@,
            Value::Member => "Member"@,
            Value::Message => "Message"@,
            Value::Modal => "Modal"@,
            Value::Role => "Role"@,
            Value::User => "User"@,
            Value::Other(s) => s@,
        }
    }

    /// The word under which the kind appears in messages.
    pub fn to_string(&self) -> (s: String)
        ensures
            s@ == self.label(),
    {
        let text: &str = match self {
            Value::Anchor => "Anchor",
            Value::Channel => "Channel",
            Value::Command => "Command",
            Value::Component => "Component",
            Value::CustomId => "CustomId",
            Value::Data => "Data",
            Value::Guild => "Guild",
            Value::Interaction => "Interaction",
            Value::Member => "Member",
            Value::Message => "Message",
            Value::Modal => "Modal",
            Value::Role => "Role",
            Value::User => "User",
            Value::Other(s) => s,
        };
        String::from_str(text)
    }

    /// Whether the kind names one of the routing tables.
    pub open spec fn is_route(self) -> bool {
        self is Command || self is Component || self is Modal || self is Interaction
    }
}

/// The classes into which every failure falls. All of them end the
/// interaction at hand; none is retried.
#[derive(Clone, Copy, Debug, PartialEq, Eq)]
pub enum Category {
    /// No handler is registered under the routing key.
    Routing,
    /// An input is missing or has the wrong shape.
    Field,
    /// A rule of the domain forbids the operation in the current state.
    Precondition,
    /// The record store failed.
    Store,
    /// The platform rejected a call.
    Platform,
}

/// Why an interaction failed.
#[derive(Debug)]
pub enum Error {
    /// The store could not be read or written; the text says why.
    ReadWrite(String),
    /// A stored record could not be decoded.
    Decode(String),
    /// A record could not be encoded.
    Encode(String),
    /// The platform rejected a call.
    Serenity(String),
    InvalidId(Value, String),
    InvalidValue(Value, String),
    MissingId(Value),
    MissingValue(Value),
    Other(&'static str),
}

/// The mathematical value of an [`Error`]: texts are sequences of
/// characters.
pub ghost enum ErrorView {
    ReadWrite(Seq<char>),
    Decode(Seq<char>),
    Encode(Seq<char>),
    Serenity(Seq<char>),
    InvalidId(Value, Seq<char>),
    InvalidValue(Value, Seq<char>),
    MissingId(Value),
    MissingValue(Value),
    Other(&'static str),
}

impl View for Error {
    type V = ErrorView;

    open spec fn view(&self) -> ErrorView {
        match self {
            Error::ReadWrite(t) => ErrorView::ReadWrite(t@),
            Error::Decode(t) => ErrorView::Decode(t@),
            Error::Encode(t) => ErrorView::Encode(t@),
            Error::Serenity(t) => ErrorView::Serenity(t@),
            Error::InvalidId(k, t) => ErrorView::InvalidId(*k, t@),
            Error::InvalidValue(k, t) => ErrorView::InvalidValue(*k, t@),
            Error::MissingId(k) => ErrorView::MissingId(*k),
            Error::MissingValue(k) => ErrorView::MissingValue(*k),
            Error::Other(s) => ErrorView::Other(s),
        }
    }
}

impl ErrorView {
    /// The text shown to the user and written to the log.
    pub open spec fn message(self) -> Seq<char> {
        match self {
            ErrorView::ReadWrite(t) => t,
            ErrorView::Decode(t) => t,
            ErrorView::Encode(t) => t,
            ErrorView::Serenity(t) => t,
            ErrorView::MissingId(k) => "Missing identifier: "@ + k.label() + "<?>"@,
            ErrorView::InvalidId(k, t) => "Invalid identifier: "@ + k.label() + "<"@ + t + ">"@,
            ErrorView::MissingValue(k) => "Missing value: "@ + k.label() + "<?>"@,
            ErrorView::InvalidValue(k, t) => "Invalid value: "@ + k.label() + "<"@ + t + ">"@,
            ErrorView::Other(s) => s@,
        }
    }

    /// The class of the failure.
    pub open spec fn category(self) -> Category {
        match self {
            ErrorView::ReadWrite(_) => Category::Store,
            ErrorView::Decode(_) => Category::Store,
            ErrorView::Encode(_) => Category::Store,
            ErrorView::Serenity(_) => Category::Platform,
            ErrorView::InvalidId(k, _) => if k.is_route() {
                Category::Routing
            } else {
                Category::Field
            },
            ErrorView::InvalidValue(k, _) => if k.is_route() {
                Category::Routing
            } else {
                Category::Field
            },
            ErrorView::MissingId(_) => Category::Field,
            ErrorView::MissingValue(_) => Category::Field,
            ErrorView::Other(_) => Category::Precondition,
        }
    }
}

/// `prefix`, the kind's word, `<`, `detail`, `>`.
fn describe(prefix: &str, kind: &Value, detail: &str) -> (s: String)
    ensures
        s@ == prefix@ + kind.label() + "<"@ + detail@ + ">"@,
{
    let mut s = String::from_str(prefix);
    let word = kind.to_string();
    s.append(word.as_str());
    s.append("<");
    s.append(detail);
    s.append(">");
    s
}

impl Error {
    /// The text shown to the user and written to the log.
    pub fn to_string(&self) -> (s: String)
        ensures
            s@ == self@.message(),
    {
        match self {
            Error::ReadWrite(t) => t.clone(),
            Error::Decode(t) => t.clone(),
            Error::Encode(t) => t.clone(),
            Error::Serenity(t) => t.clone(),
            Error::MissingId(k) => {
                proof {
                    reveal_strlit("<?>");
                    reveal_strlit("<");
                    reveal_strlit("?");
                    reveal_strlit(">");
                    assert("<?>"@ == "<"@ + "?"@ + ">"@);
                    assert("Missing identifier: "@ + k.label() + "<"@ + "?"@ + ">"@
                        == "Missing identifier: "@ + k.label() + "<?>"@);
                }
                describe("Missing identifier: ", k, "?")
            },
            Error::InvalidId(k, t) => describe("Invalid identifier: ", k, t.as_str()),
            Error::MissingValue(k) => {
                proof {
                    reveal_strlit("<?>");
                    reveal_strlit("<");
                    reveal_strlit("?");
                    reveal_strlit(">");
                    assert("<?>"@ == "<"@ + "?"@ + ">"@);
                    assert("Missing value: "@ + k.label() + "<"@ + "?"@ + ">"@
                        == "Missing value: "@ + k.label() + "<?>"@);
                }
                describe("Missing value: ", k, "?")
            },
            Error::InvalidValue(k, t) => describe("Invalid value: ", k, t.as_str()),
            Error::Other(s) => String::from_str(s),
        }
    }

    /// The class of the failure.
    pub fn category(&self) -> (c: Category)
        ensures
            c == self@.category(),
    {
        match self {
            Error::ReadWrite(_) => Category::Store,
            Error::Decode(_) => Category::Store,
            Error::Encode(_) => Category::Store,
            Error::Serenity(_) => Category::Platform,
            Error::InvalidId(k, _) => if Self::names_route(k) {
                Category::Routing
            } else {
                Category::Field
            },
            Error::InvalidValue(k, _) => if Self::names_route(k) {
                Category::Routing
            } else {
                Category::Field
            },
            Error::MissingId(_) => Category::Field,
            Error::MissingValue(_) => Category::Field,
            Error::Other(_) => Category::Precondition,
        }
    }

    fn names_route(kind: &Value) -> (b: bool)
        ensures
            b == kind.is_route(),
    {
        match kind {
            Value::Command => true,
            Value::Component => true,
            Value::Modal => true,
            Value::Interaction => true,
            _ => false,
        }
    }
}

/// The result of every fallible operation of the crate.
pub type Result<T> = core::result::Result<T, Error>;

/// The development guild named by the configuration value `raw`, which is
/// absent when the value is not set.
pub open spec fn dev_guild_spec(raw: Option<Seq<char>>) -> core::result::Result<u64, ErrorView> {
    match raw {
        None => Err(ErrorView::MissingId(Value::Guild)),
        Some(text) => match parse_u64_seq(text) {
            Some(id) => Ok(id),
            None => Err(ErrorView::InvalidId(Value::Guild, text)),
        },
    }
}

/// Reads the development guild's identifier from its configuration value.
pub fn dev_guild(raw: Option<String>) -> (r: Result<u64>)
    ensures
        match dev_guild_spec(raw.deep_view()) {
            Ok(id) => r == Ok::<u64, Error>(id),
            Err(e) => r matches Err(got) && got@ == e,
        },
{
    match raw {
        None => Err(Error::MissingId(Value::Guild)),
        Some(text) => match parse_u64(text.as_str()) {
            Some(id) => Ok(id),
            None => Err(Error::InvalidId(Value::Guild, text)),
        },
    }
}

} // verus!
