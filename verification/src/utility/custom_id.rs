//! The identifier carried by buttons, select menus and modals: a name, whose
//! first part routes the interaction, and a list of arguments.

use vstd::prelude::*;

use crate::utility::text::decimal;
use crate::utility::text::decimal_seq;
use crate::utility::text::has_char;
use crate::utility::text::join;
use crate::utility::text::join_seq;
use crate::utility::text::lemma_split_first;
use crate::utility::text::lemma_split_join;
use crate::utility::text::parse_u64;
use crate::utility::text::parse_u64_seq;
use crate::utility::text::parse_usize;
use crate::utility::text::parse_usize_seq;
use crate::utility::text::split;
use crate::utility::text::split_seq;
use crate::utility::Error;
use crate::utility::ErrorView;
use crate::utility::Result;
use crate::utility::Value;

verus! {

/// The character between the name and the arguments, and between
/// arguments.
pub const ARG_SEPARATOR: char = ';';

/// The character that ends the base within a name.
pub const BASE_SEPARATOR: char = '_';

/// A decoded component identifier.
///
/// Neither the name nor an argument can hold [`ARG_SEPARATOR`]: there is no
/// escaping, so arguments are identifiers, ordinals and small indices only.
#[derive(Clone, Debug, PartialEq, Eq)]
pub struct CustomId {
    /// The part of `name` before its first underscore: the command that
    /// owns the component.
    pub base: String,
    pub name: String,
    pub args: Vec<String>,
}

/// The mathematical value of a [`CustomId`].
pub ghost struct CustomIdView {
    pub base: Seq<char>,
    pub name: Seq<char>,
    pub args: Seq<Seq<char>>,
}

impl View for CustomId {
    type V = CustomIdView;

    open spec fn view(&self) -> CustomIdView {
        CustomIdView { base: self.base@, name: self.name@, args: self.args.deep_view() }
    }
}

/// The part of `name` before its first underscore; all of it when it has
/// none.
pub open spec fn base_of(name: Seq<char>) -> Seq<char> {
    split_seq(name, '_')[0]
}

/// The base is the name up to its first underscore, the underscore left
/// out: where the first `k` characters hold no underscore and the next one
/// is an underscore or the name ends, the base is those `k` characters.
pub proof fn lemma_base_is_prefix(name: Seq<char>, k: int)
    requires
        0 <= k <= name.len(),
        !has_char(name.take(k), '_'),
        k < name.len() ==> name[k] == '_',
    ensures
        base_of(name) == name.take(k),
{
    lemma_split_first(name, '_', k);
}

/// Whether a name and its arguments can be carried in an identifier and
/// read back: the base is not empty, and nothing holds the separator.
pub open spec fn is_valid(name: Seq<char>, args: Seq<Seq<char>>) -> bool {
    &&& base_of(name).len() > 0
    &&& !has_char(name, ';')
    &&& forall|i: int| 0 <= i < args.len() ==> !has_char(#[trigger] args[i], ';')
}

/// The text of an identifier: the name and the arguments, joined by `;`.
pub open spec fn encode(name: Seq<char>, args: Seq<Seq<char>>) -> Seq<char> {
    join_seq(seq![name] + args, ';')
}

/// The identifier that a text denotes. The text is cut at every `;`; the
/// first piece is the name and the others are the arguments. A text whose
/// name has an empty base denotes nothing.
pub open spec fn decode(text: Seq<char>) -> Option<CustomIdView> {
    let parts = split_seq(text, ';');
    let name = parts[0];
    if base_of(name).len() == 0 {
        None
    } else {
        Some(CustomIdView { base: base_of(name), name, args: parts.skip(1) })
    }
}

/// Decoding undoes encoding: every valid name and argument list comes back
/// unchanged, together with the base of the name.
pub proof fn lemma_decode_encode(name: Seq<char>, args: Seq<Seq<char>>)
    requires
        is_valid(name, args),
    ensures
        decode(encode(name, args)) == Some(CustomIdView { base: base_of(name), name, args }),
{
    let parts = seq![name] + args;
    assert forall|i: int| 0 <= i < parts.len() implies !has_char(#[trigger] parts[i], ';') by {
        if i > 0 {
            assert(parts[i] == args[i - 1]);
        }
    }
    lemma_split_join(parts, ';');
    assert(parts[0] == name);
    assert(parts.skip(1) == args);
}

/// The identifier in the argument at position `index`: missing when there
/// are fewer arguments, invalid when the argument is no number.
pub open spec fn number_arg(args: Seq<Seq<char>>, index: int, kind: Value) -> core::result::Result<
    u64,
    ErrorView,
> {
    if index >= args.len() {
        Err(ErrorView::MissingId(kind))
    } else {
        match parse_u64_seq(args[index]) {
            Some(number) => Ok(number),
            None => Err(ErrorView::InvalidId(kind, args[index])),
        }
    }
}

/// The position or count in the argument at position `index`: missing when
/// there are fewer arguments, invalid when the argument is no number that
/// fits.
pub open spec fn index_arg(args: Seq<Seq<char>>, index: int, kind: Value) -> core::result::Result<
    usize,
    ErrorView,
> {
    if index >= args.len() {
        Err(ErrorView::MissingId(kind))
    } else {
        match parse_usize_seq(args[index]) {
            Some(number) => Ok(number),
            None => Err(ErrorView::InvalidId(kind, args[index])),
        }
    }
}

impl CustomId {
    /// The identifier in the argument at position `index`, which speaks of
    /// a thing of the given kind.
    pub fn arg_u64(&self, index: usize, kind: Value) -> (r: Result<u64>)
        ensures
            match number_arg(self@.args, index as int, kind) {
                Ok(number) => r == Ok::<u64, Error>(number),
                Err(e) => r matches Err(got) && got@ == e,
            },
    {
        if index >= self.args.len() {
            return Err(Error::MissingId(kind));
        }
        match parse_u64(self.args[index].as_str()) {
            Some(number) => Ok(number),
            None => Err(Error::InvalidId(kind, self.args[index].clone())),
        }
    }

    /// The position or count in the argument at position `index`.
    pub fn arg_usize(&self, index: usize, kind: Value) -> (r: Result<usize>)
        ensures
            match index_arg(self@.args, index as int, kind) {
                Ok(number) => r == Ok::<usize, Error>(number),
                Err(e) => r matches Err(got) && got@ == e,
            },
    {
        if index >= self.args.len() {
            return Err(Error::MissingId(kind));
        }
        match parse_usize(self.args[index].as_str()) {
            Some(number) => Ok(number),
            None => Err(Error::InvalidId(kind, self.args[index].clone())),
        }
    }

    /// An identifier with the given name and no arguments.
    pub fn new(name: &str) -> (id: Self)
        ensures
            id@ == (CustomIdView { base: base_of(name@), name: name@, args: Seq::empty() }),
    {
        let mut pieces = split(name, BASE_SEPARATOR);
        let base = pieces.swap_remove(0);
        let id = CustomId { base, name: name.to_owned(), args: Vec::new() };
        assert(id.args.deep_view() == Seq::<Seq<char>>::empty());
        id
    }

    /// The same identifier with one more argument at the end.
    pub fn arg(self, arg: &str) -> (id: Self)
        ensures
            id@ == (CustomIdView { args: self@.args.push(arg@), ..self@ }),
    {
        let mut id = self;
        let ghost before = id.args.deep_view();
        id.args.push(arg.to_owned());
        assert(id.args.deep_view() == before.push(arg@));
        id
    }

    /// The same identifier with the decimal notation of `number` as one
    /// more argument.
    pub fn arg_number(self, number: u64) -> (id: Self)
        ensures
            id@ == (CustomIdView { args: self@.args.push(decimal_seq(number as nat)), ..self@ }),
    {
        let text = decimal(number);
        self.arg(text.as_str())
    }

    /// The text of the identifier.
    pub fn to_string(&self) -> (text: String)
        ensures
            text@ == encode(self@.name, self@.args),
    {
        let mut parts: Vec<String> = Vec::new();
        parts.push(self.name.clone());
        let mut i: usize = 0;
        while i < self.args.len()
            invariant
                i <= self.args.len(),
                parts.deep_view() == seq![self.name@] + self.args.deep_view().take(i as int),
            decreases self.args.len() - i,
        {
            let ghost before = parts.deep_view();
            parts.push(self.args[i].clone());
            assert(parts.deep_view() == before.push(self.args[i as int]@));
            assert(self.args.deep_view().take(i + 1) == self.args.deep_view().take(i as int).push(
                self.args[i as int]@,
            ));
            i += 1;
        }
        assert(self.args.deep_view().take(self.args.len() as int) == self.args.deep_view());
        join(&parts, ARG_SEPARATOR)
    }

    /// Reads an identifier from its text.
    ///
    /// Fails, with the text in the error, exactly when the name has an
    /// empty base: on the empty text, and on a text that begins with `;` or
    /// `_`.
    pub fn try_from(value: &str) -> (r: Result<Self>)
        ensures
            match decode(value@) {
                Some(id) => r matches Ok(got) && got@ == id,
                None => r matches Err(e) && e@ == ErrorView::InvalidId(Value::CustomId, value@),
            },
    {
        let mut parts = split(value, ARG_SEPARATOR);
        let ghost pieces = parts.deep_view();
        let name = parts.remove(0);
        assert(parts.deep_view() == pieces.skip(1));
        let id = Self::new(name.as_str());
        if id.base.as_str().unicode_len() == 0 {
            return Err(Error::InvalidId(Value::CustomId, value.to_owned()));
        }
        let id = CustomId { base: id.base, name: id.name, args: parts };
        Ok(id)
    }
}

} // verus!
