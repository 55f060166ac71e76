//! Where a record's card lives on the platform.

use vstd::prelude::*;
use vstd::string::*;

use crate::utility::clock::created_millis;
use crate::utility::clock::snowflake_millis;
use crate::utility::text::decimal;
use crate::utility::text::decimal_seq;
use crate::utility::text::push_char;
use crate::utility::Error;
use crate::utility::Result;
use crate::utility::Value;

verus! {

/// The guild, channel and message under which a record was posted. It is
/// set when the card is sent and replaced only by sending the card again.
#[derive(Clone, Copy, Debug, PartialEq, Eq, Structural)]
pub struct Anchor {
    pub guild: u64,
    pub channel: u64,
    pub message: u64,
}

impl Anchor {
    /// The `(guild, channel, message)` triple of a posted message.
    pub fn new(guild: u64, channel: u64, message: u64) -> (anchor: Self)
        ensures
            anchor == (Anchor { guild, channel, message }),
    {
        Anchor { guild, channel, message }
    }

    /// Whether the three identifiers are ones that the platform issues:
    /// none of them is zero.
    pub open spec fn wf(self) -> bool {
        self.guild != 0 && self.channel != 0 && self.message != 0
    }

    /// Whether the three identifiers are ones that the platform issues.
    pub fn is_valid(&self) -> (b: bool)
        ensures
            b == self.wf(),
    {
        self.guild != 0 && self.channel != 0 && self.message != 0
    }

    /// The link to the message.
    pub open spec fn url(self) -> Seq<char> {
        "https://discord.com/channels"@ + seq!['/'] + decimal_seq(self.guild as nat) + seq!['/']
            + decimal_seq(self.channel as nat) + seq!['/'] + decimal_seq(self.message as nat)
    }

    /// The link to the message.
    pub fn to_string(&self) -> (s: String)
        ensures
            s@ == self.url(),
    {
        let mut s = String::from_str("https://discord.com/channels");
        push_char(&mut s, '/');
        s.append(decimal(self.guild).as_str());
        push_char(&mut s, '/');
        s.append(decimal(self.channel).as_str());
        push_char(&mut s, '/');
        s.append(decimal(self.message).as_str());
        proof {
            let base = "https://discord.com/channels"@;
            assert(base.push('/') == base + seq!['/']);
            let a = base + seq!['/'] + decimal_seq(self.guild as nat);
            assert(a.push('/') == a + seq!['/']);
            let b = a + seq!['/'] + decimal_seq(self.channel as nat);
            assert(b.push('/') == b + seq!['/']);
        }
        s
    }

    /// When the message was posted, in milliseconds since 1970.
    pub fn created_at(&self) -> (ms: i64)
        requires
            self.message != 0,
        ensures
            ms == created_millis(self.message),
    {
        snowflake_millis(self.message)
    }
}

/// A record that may have been posted as a message.
pub trait Anchored {
    /// The anchor, if the record has been posted.
    spec fn anchor_spec(&self) -> Option<Anchor>;

    /// The anchor of a posted record; a record that was never posted has
    /// none, and the anchor is then reported as the missing value.
    fn anchor(&self) -> (r: Result<Anchor>)
        ensures
            match self.anchor_spec() {
                Some(a) => r == Ok::<Anchor, Error>(a),
                None => r == Err::<Anchor, Error>(Error::MissingValue(Value::Anchor)),
            },
    ;

    /// Whether the record has been posted.
    fn is_anchored(&self) -> (b: bool)
        ensures
            b == self.anchor_spec().is_some(),
    {
        self.anchor().is_ok()
    }

    /// Whether the record has not been posted.
    fn is_floating(&self) -> (b: bool)
        ensures
            b == self.anchor_spec().is_none(),
    {
        self.anchor().is_err()
    }
}

/// The contract of [`Anchored::anchor`] from the stored field.
pub fn anchor_or_missing(anchor: Option<Anchor>) -> (r: Result<Anchor>)
    ensures
        match anchor {
            Some(a) => r == Ok::<Anchor, Error>(a),
            None => r == Err::<Anchor, Error>(Error::MissingValue(Value::Anchor)),
        },
{
    match anchor {
        Some(a) => Ok(a),
        None => Err(Error::MissingValue(Value::Anchor)),
    }
}

} // verus!
