//! What a poll asks: the options of a choice poll, the questions of a
//! response poll. A raffle asks nothing.

use vstd::prelude::*;

use crate::command::poll::form::Kind;
use crate::utility::custom_id::encode;
use crate::utility::custom_id::CustomId;
use crate::utility::platform::reaction_of;
use crate::utility::platform::Button;
use crate::utility::platform::ButtonStyle;
use crate::utility::platform::ButtonView;
use crate::utility::platform::Emoji;
use crate::utility::platform::InputTextStyle;
use crate::utility::platform::TextInput;
use crate::utility::platform::TextInputView;
use crate::utility::text::decimal;
use crate::utility::text::decimal_seq;

use crate::utility::traits::AsButton;

verus! {

pub const BUTTON_CHOICE: &'static str = "poll_choice";

pub const BUTTON_RESPONSE: &'static str = "poll_response";

pub const BUTTON_RAFFLE: &'static str = "poll_raffle";

/// A labelled input with optional decoration: the emoji of an option, the
/// placeholder of a question.
#[derive(Clone, Debug)]
pub struct InputData<T> {
    pub label: String,
    pub data: Option<T>,
}

/// One input of a poll.
#[derive(Clone, Debug)]
pub enum Input {
    /// An option that voters pick with a button.
    Choice(InputData<Emoji>),
    /// A question that voters answer in a modal.
    Response(InputData<String>),
}

impl Input {
    /// How many inputs a poll of the given kind can have.
    pub open spec fn max_count_spec(kind: Kind) -> usize {
        match kind {
            Kind::Choice => 10,
            Kind::Response => 5,
            Kind::Raffle => 0,
        }
    }

    /// How many inputs a poll of the given kind can have.
    pub fn max_count(kind: Kind) -> (count: usize)
        ensures
            count == Self::max_count_spec(kind),
    {
        match kind {
            Kind::Choice => 10,
            Kind::Response => 5,
            Kind::Raffle => 0,
        }
    }

    /// The label of the input.
    pub open spec fn label_spec(&self) -> Seq<char> {
        match self {
            Input::Choice(data) => data.label@,
            Input::Response(data) => data.label@,
        }
    }

    /// The label of the input.
    pub fn label(&self) -> (label: &str)
        ensures
            label@ == self.label_spec(),
    {
        match self {
            Input::Choice(data) => data.label.as_str(),
            Input::Response(data) => data.label.as_str(),
        }
    }

    /// The kind of poll that the input belongs to.
    pub open spec fn kind_spec(&self) -> Kind {
        match self {
            Input::Choice(_) => Kind::Choice,
            Input::Response(_) => Kind::Response,
        }
    }

    /// The kind of poll that the input belongs to.
    pub fn kind(&self) -> (kind: Kind)
        ensures
            kind == self.kind_spec(),
    {
        match self {
            Input::Choice(_) => Kind::Choice,
            Input::Response(_) => Kind::Response,
        }
    }

    /// An option of a choice poll with the given emoji, if any.
    pub fn choice(label: &str, emoji: Option<Emoji>) -> (input: Input)
        ensures
            input matches Input::Choice(data) && data.label@ == label@ && data.data == emoji,
    {
        Input::Choice(InputData { label: label.to_owned(), data: emoji })
    }

    /// An option of a choice poll whose emoji is read from what the owner
    /// typed. A text that is no emoji is ignored: the option then has none.
    pub fn choice_from(label: &str, emoji: Option<&str>) -> (input: Input)
        ensures
            input matches Input::Choice(data) && data.label@ == label@ && data.data.deep_view() == (
            match emoji {
                Some(text) => reaction_of(text@),
                None => None,
            }),
    {
        let emoji = match emoji {
            Some(text) => Emoji::parse(text),
            None => None,
        };
        Self::choice(label, emoji)
    }

    /// A question of a response poll with the given placeholder, if any.
    pub fn response(label: &str, placeholder: Option<&str>) -> (input: Input)
        ensures
            input matches Input::Response(data) && data.label@ == label@ && data.data.deep_view()
                == placeholder.deep_view(),
    {
        let data = match placeholder {
            Some(text) => Some(text.to_owned()),
            None => None,
        };
        Input::Response(InputData { label: label.to_owned(), data })
    }
}

impl InputData<Emoji> {
    /// The button of the option at position `index` of the poll of `user`.
    pub open spec fn button(&self, disabled: bool, user: u64, index: usize) -> ButtonView {
        ButtonView {
            custom_id: encode(
                BUTTON_CHOICE@,
                seq![decimal_seq(user as nat), decimal_seq(index as nat)],
            ),
            disabled,
            emoji: self.data.deep_view(),
            label: Some(self.label@),
            style: ButtonStyle::Secondary,
        }
    }

}

impl InputData<String> {
    /// The text field of the question at position `index`.
    pub open spec fn text_input(&self, index: usize) -> TextInputView {
        TextInputView {
            custom_id: decimal_seq(index as nat),
            label: self.label@,
            style: InputTextStyle::Short,
            max_length: Some(256u16),
            required: true,
            placeholder: self.data.deep_view(),
        }
    }

    /// The text field in which a voter answers this question. Its
    /// identifier is the question's position.
    pub fn as_input_text(&self, index: usize) -> (input: TextInput)
        ensures
            input@ == self.text_input(index),
    {
        let input = TextInput::new(
            InputTextStyle::Short,
            self.label.as_str(),
            decimal(index as u64),
        ).max_length(256).required(true);
        match &self.data {
            Some(text) => input.placeholder(text.as_str()),
            None => input,
        }
    }
}

impl AsButton<(u64, usize)> for InputData<Emoji> {
    open spec fn button_view(&self, disabled: bool, args: (u64, usize)) -> ButtonView {
        self.button(disabled, args.0, args.1)
    }

    /// The button with which a voter picks this option. Its identifier
    /// carries the poll's owner and the option's position.
    fn as_button(&self, disabled: bool, args: (u64, usize)) -> (button: Button) {
        let user = args.0;
        let index = args.1;
        let custom_id = CustomId::new(BUTTON_CHOICE).arg_number(user).arg_number(index as u64);
        let button = Button::new(custom_id.to_string()).disabled(disabled).label(
            self.label.as_str(),
        ).style(ButtonStyle::Secondary);
        proof {
            let empty = Seq::<Seq<char>>::empty();
            assert(empty.push(decimal_seq(user as nat)).push(decimal_seq(index as nat)) == seq![
                decimal_seq(user as nat),
                decimal_seq(index as nat),
            ]);
        }
        match &self.data {
            Some(emoji) => button.icon(emoji.duplicate()),
            None => button,
        }
    }
}

} // verus!
