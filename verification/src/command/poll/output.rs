//! The results of a poll, computed once when it is closed.

use std::collections::BTreeMap;
use std::collections::BTreeSet;
use vstd::prelude::*;
use vstd::std_specs::btree::*;
use vstd::std_specs::iter::IteratorSpec;

use crate::command::poll::form::Form;
use crate::command::poll::form::Kind;
use crate::command::poll::form::Reply;
use crate::command::poll::input::Input;
use crate::utility::anchor::Anchor;
use crate::utility::chance::random_index;
use crate::utility::platform::Embed;
use crate::utility::platform::EmbedAuthor;
use crate::utility::platform::EmbedAuthorView;
use crate::utility::platform::EmbedFieldView;
use crate::utility::platform::EmbedFooter;
use crate::utility::platform::EmbedFooterView;
use crate::utility::platform::EmbedView;
use crate::utility::platform::UserProfile;
use crate::utility::seqs::ascending_seq;
use crate::utility::seqs::members;
use crate::utility::seqs::mention_all;
use crate::utility::seqs::mentions;
use crate::utility::seqs::sorted_keys;
use crate::utility::text::single_line;
use crate::utility::text::single_line_seq;
use crate::utility::BOT_COLOR;
use crate::utility::custom_id::encode;
use crate::utility::custom_id::CustomId;
use crate::utility::platform::Button;
use crate::utility::platform::ButtonStyle;
use crate::utility::platform::ButtonView;
use crate::utility::platform::EmojiView;
use crate::utility::seqs::copy_texts;
use crate::utility::seqs::at_most;
use crate::utility::seqs::lemma_take_contains;
use crate::utility::text::decimal;
use crate::utility::text::decimal_seq;
use crate::utility::text::push_char;
use crate::utility::Error;
use crate::utility::Result;
use crate::utility::Value;
use vstd::string::*;

verus! {

pub const BUTTON_LAST: &'static str = "poll_last";

pub const BUTTON_NEXT: &'static str = "poll_next";

/// The voters of a poll, each once.
pub fn voter_list(replies: &BTreeMap<u64, Reply>) -> (voters: Vec<u64>)
    ensures
        voters@.no_duplicates(),
        voters@.to_set() == replies@.dom(),
{
    let mut voters: Vec<u64> = Vec::new();
    for user in it: replies.keys()
        invariant
            voters@ == it.seq().unref().take(it.index() as int),
            it.seq() == spec_keys_iter(replies).remaining(),
    {
        voters.push(*user);
    }
    assert(voters@ == spec_keys_iter(replies).remaining().unref());
    voters
}

/// The voters who picked the option at position `index`.
pub open spec fn voters_of(replies: Map<u64, Reply>, index: usize) -> Set<u64> {
    Set::new(|user: u64| replies.contains_key(user) && replies[user] == Reply::Choice(index))
}

/// Whether the entry `a` stands before the entry `b` in the results: it has
/// more votes, or as many and an earlier position in the poll.
pub open spec fn ranks_before(a: (usize, BTreeSet<u64>), b: (usize, BTreeSet<u64>)) -> bool {
    a.1@.len() > b.1@.len() || (a.1@.len() == b.1@.len() && a.0 < b.0)
}

/// Whether `votes` is the tally of the first `upto` inputs: one entry for
/// each option among them, with the voters who picked it, in the order of
/// the results.
pub open spec fn is_tally(
    votes: Seq<(usize, BTreeSet<u64>)>,
    inputs: Seq<Input>,
    replies: Map<u64, Reply>,
    upto: int,
) -> bool {
    &&& forall|k: int|
        0 <= k < votes.len() ==> {
            &&& 0 <= (#[trigger] votes[k]).0 < upto
            &&& inputs[votes[k].0 as int] is Choice
            &&& votes[k].1@ == voters_of(replies, votes[k].0)
        }
    &&& forall|i: int|
        0 <= i < upto && (#[trigger] inputs[i]) is Choice ==> exists|k: int|
            0 <= k < votes.len() && (#[trigger] votes[k]).0 == i
    &&& forall|j: int, k: int|
        0 <= j < k < votes.len() ==> ranks_before(#[trigger] votes[j], #[trigger] votes[k])
}

/// The results of a choice poll.
#[derive(Clone, Debug)]
pub struct ChoiceOutputData {
    /// For each option, its position in the poll and the voters who picked
    /// it. Options with more votes come first; among options with as many
    /// votes, the one that stands first in the poll.
    pub votes: Vec<(usize, BTreeSet<u64>)>,
}

impl ChoiceOutputData {
    /// The voters among `keys` who picked the option at position `index`.
    fn count(replies: &BTreeMap<u64, Reply>, keys: &Vec<u64>, index: usize) -> (users: BTreeSet<u64>)
        requires
            keys@.to_set() == replies@.dom(),
        ensures
            users@ == voters_of(replies@, index),
    {
        let mut users: BTreeSet<u64> = BTreeSet::new();
        let mut i: usize = 0;
        while i < keys.len()
            invariant
                i <= keys.len(),
                keys@.to_set() == replies@.dom(),
                forall|u: u64|
                    users@.contains(u) <==> (voters_of(replies@, index).contains(u) && keys@.take(
                        i as int,
                    ).contains(u)),
            decreases keys.len() - i,
        {
            let user = keys[i];
            proof {
                assert(keys@.to_set().contains(user));
                lemma_take_contains(keys@, i as int);
            }
            match replies.get(&user) {
                Some(Reply::Choice(picked)) => {
                    if *picked == index {
                        users.insert(user);
                    }
                },
                _ => {},
            }
            i += 1;
        }
        assert(keys@.take(keys.len() as int) == keys@);
        assert(users@ =~= voters_of(replies@, index)) by {
            assert forall|u: u64| voters_of(replies@, index).contains(u) implies keys@.contains(
                u,
            ) by {
                assert(keys@.to_set().contains(u));
            }
        }
        users
    }

    /// Tallies the votes of a poll: one entry for each option, with the
    /// voters who picked it. Options with more votes come first; options
    /// with as many votes keep the order they have in the poll.
    pub fn new(form: &Form) -> (data: Self)
        ensures
            is_tally(data.votes@, form.inputs@, form.replies@, form.inputs.len() as int),
            data.votes.len() <= form.inputs.len(),
    {
        let keys = voter_list(&form.replies);
        let mut votes: Vec<(usize, BTreeSet<u64>)> = Vec::new();
        let mut index: usize = 0;
        while index < form.inputs.len()
            invariant
                index <= form.inputs.len(),
                keys@.to_set() == form.replies@.dom(),
                is_tally(votes@, form.inputs@, form.replies@, index as int),
                votes.len() <= index,
            decreases form.inputs.len() - index,
        {
            match &form.inputs[index] {
                Input::Choice(_) => {
                    let users = Self::count(&form.replies, &keys, index);
                    let size = users.len();
                    let mut at: usize = 0;
                    while at < votes.len() && votes[at].1.len() >= size
                        invariant
                            at <= votes.len(),
                            size == users@.len(),
                            forall|j: int| 0 <= j < at ==> (#[trigger] votes[j]).1@.len() >= size,
                        decreases votes.len() - at,
                    {
                        at += 1;
                    }
                    let ghost before = votes@;
                    let ghost entry = (index, users);
                    votes.insert(at, (index, users));
                    proof {
                        let after = votes@;
                        assert(after == before.insert(at as int, entry));
                        assert forall|k: int| 0 <= k < after.len() implies {
                            &&& 0 <= (#[trigger] after[k]).0 < index + 1
                            &&& form.inputs@[after[k].0 as int] is Choice
                            &&& after[k].1@ == voters_of(form.replies@, after[k].0)
                        } by {
                            if k < at {
                                assert(after[k] == before[k]);
                            } else if k > at {
                                assert(after[k] == before[k - 1]);
                            }
                        }
                        assert forall|i: int|
                            0 <= i < index + 1 && (
                            #[trigger] form.inputs@[i]) is Choice implies exists|k: int|
                            0 <= k < after.len() && (#[trigger] after[k]).0 == i by {
                            if i == index {
                                assert(after[at as int].0 == i);
                            } else {
                                let k0 = choose|k: int|
                                    0 <= k < before.len() && (#[trigger] before[k]).0 == i;
                                if k0 < at {
                                    assert(after[k0] == before[k0]);
                                } else {
                                    assert(after[k0 + 1] == before[k0]);
                                }
                            }
                        }
                        assert forall|j: int, k: int| 0 <= j < k < after.len() implies ranks_before(
                            #[trigger] after[j],
                            #[trigger] after[k],
                        ) by {
                            if k < at {
                                assert(after[j] == before[j] && after[k] == before[k]);
                            } else if k == at {
                                assert(after[j] == before[j]);
                                assert(before[j].0 < index);
                            } else if j < at {
                                assert(after[j] == before[j] && after[k] == before[k - 1]);
                            } else if j == at {
                                assert(after[k] == before[k - 1]);
                                assert(before[at as int].1@.len() < size);
                                if k - 1 > at {
                                    assert(ranks_before(before[at as int], before[k - 1]));
                                }
                            } else {
                                assert(after[j] == before[j - 1] && after[k] == before[k - 1]);
                            }
                        }
                    }
                },
                _ => {},
            }
            index += 1;
        }
        ChoiceOutputData { votes }
    }

    /// The share of `votes` among `total` votes, in tenths of a percent and
    /// rounded to the nearest tenth, a half to the even neighbour. Without
    /// votes every share is zero.
    pub open spec fn share(votes: int, total: int) -> int {
        if total <= 0 {
            0
        } else {
            let whole = (votes * 1000) / total;
            let rest = (votes * 1000) % total;
            if 2 * rest > total || (2 * rest == total && whole % 2 == 1) {
                whole + 1
            } else {
                whole
            }
        }
    }

    /// The share of `votes` among `total` votes, in tenths of a percent.
    pub fn percent(votes: usize, total: usize) -> (tenths: u64)
        requires
            votes <= total,
        ensures
            tenths == Self::share(votes as int, total as int),
            tenths <= 1000,
    {
        if total == 0 {
            return 0;
        }
        let scaled: u128 = (votes as u128) * 1000;
        let whole: u128 = scaled / (total as u128);
        let rest: u128 = scaled % (total as u128);
        assert(whole <= 1000) by (nonlinear_arith)
            requires
                whole == (votes * 1000) / (total as int),
                0 <= votes <= total,
                total > 0,
        ;
        assert(whole == 1000 ==> rest == 0) by (nonlinear_arith)
            requires
                whole == (votes * 1000) / (total as int),
                rest == (votes * 1000) % (total as int),
                0 <= votes <= total,
                total > 0,
        ;
        if 2 * rest > (total as u128) || (2 * rest == (total as u128) && whole % 2 == 1) {
            (whole + 1) as u64
        } else {
            whole as u64
        }
    }

    /// How a number of votes is written: the count, and in brackets the
    /// share in percent with one decimal.
    pub open spec fn votes_line(votes: int, total: int) -> Seq<char> {
        let share = Self::share(votes, total);
        decimal_seq(votes as nat) + " votes ("@ + decimal_seq((share / 10) as nat) + seq!['.']
            + decimal_seq((share % 10) as nat) + "%)"@
    }

    /// Writes a number of votes with its share among `total` votes.
    pub fn votes_text(votes: usize, total: usize) -> (text: String)
        requires
            votes <= total,
        ensures
            text@ == Self::votes_line(votes as int, total as int),
    {
        let share = Self::percent(votes, total);
        let mut text = decimal(votes as u64);
        text.append(" votes (");
        text.append(decimal(share / 10).as_str());
        let ghost before = text@;
        push_char(&mut text, '.');
        assert(text@ == before + seq!['.']);
        text.append(decimal(share % 10).as_str());
        text.append("%)");
        text
    }

    /// How many of the `width` cells of a bar are filled for `votes` among
    /// `total` votes: the share of the width, rounded down.
    pub open spec fn filled(votes: int, total: int, width: int) -> int {
        if total <= 0 {
            0
        } else {
            (width * votes) / total
        }
    }

    /// A bar of `width` cells between backticks, of which the share of
    /// `votes` among `total` votes is filled.
    pub open spec fn bar(votes: int, total: int, width: int) -> Seq<char> {
        let size = Self::filled(votes, total, width);
        seq!['`'] + Seq::new(size as nat, |i: int| '█') + Seq::new(
            (width - size) as nat,
            |i: int| ' ',
        ) + seq!['`']
    }

    /// Draws the bar of `votes` among `total` votes.
    pub fn graph(votes: usize, total: usize, width: usize) -> (text: String)
        requires
            votes <= total,
        ensures
            text@ == Self::bar(votes as int, total as int, width as int),
    {
        let size: usize = if total == 0 {
            0
        } else {
            assert(width * votes <= 0xFFFF_FFFF_FFFF_FFFF * 0xFFFF_FFFF_FFFF_FFFF) by (nonlinear_arith)
                requires
                    0 <= width <= 0xFFFF_FFFF_FFFF_FFFF,
                    0 <= votes <= 0xFFFF_FFFF_FFFF_FFFF,
            ;
            let cells: u128 = ((width as u128) * (votes as u128)) / (total as u128);
            assert(cells <= width) by (nonlinear_arith)
                requires
                    cells == (width * votes) / (total as int),
                    0 <= votes <= total,
                    total > 0,
                    width >= 0,
            ;
            cells as usize
        };
        let mut text = String::new();
        push_char(&mut text, '`');
        let mut i: usize = 0;
        while i < size
            invariant
                i <= size,
                text@ == seq!['`'] + Seq::new(i as nat, |k: int| '█'),
            decreases size - i,
        {
            push_char(&mut text, '█');
            assert(text@ =~= seq!['`'] + Seq::new((i + 1) as nat, |k: int| '█'));
            i += 1;
        }
        let ghost filled = text@;
        let mut j: usize = 0;
        while j < width - size
            invariant
                size <= width,
                j <= width - size,
                text@ == filled + Seq::new(j as nat, |k: int| ' '),
            decreases width - size - j,
        {
            push_char(&mut text, ' ');
            assert(text@ =~= filled + Seq::new((j + 1) as nat, |k: int| ' '));
            j += 1;
        }
        let ghost body = text@;
        push_char(&mut text, '`');
        assert(text@ == body + seq!['`']);
        text
    }

    /// The entry that the page `page` of the results shows: pages count
    /// from one, and the first page is the overview, so that the second page
    /// shows the first entry. The overview's page and the page before it
    /// show the first entry too.
    pub fn page_entry(&self, page: usize) -> (r: Result<&(usize, BTreeSet<u64>)>)
        ensures
            ({
                let index = if page < 2 {
                    0
                } else {
                    page - 2
                };
                if index < self.votes.len() {
                    r == Ok::<&(usize, BTreeSet<u64>), Error>(&self.votes[index])
                } else {
                    r == Err::<&(usize, BTreeSet<u64>), Error>(
                        Error::MissingValue(Value::Other("Entry")),
                    )
                }
            }),
    {
        let index = if page < 2 {
            0
        } else {
            page - 2
        };
        if index < self.votes.len() {
            Ok(&self.votes[index])
        } else {
            Err(Error::MissingValue(Value::Other("Entry")))
        }
    }

    /// The number of pages of the results: an overview and one page for
    /// each option.
    pub fn pages(&self) -> (pages: usize)
        requires
            self.votes.len() < usize::MAX,
        ensures
            pages == self.votes.len() + 1,
    {
        self.votes.len() + 1
    }
}

/// The results of a response poll.
#[derive(Clone, Debug)]
pub struct ResponseOutputData {
    /// What each voter answered, word for word.
    pub answers: BTreeMap<u64, Vec<String>>,
}

/// Whether `answers` holds exactly what the voters of a response poll
/// wrote.
pub open spec fn is_transcript(answers: Map<u64, Vec<String>>, replies: Map<u64, Reply>) -> bool {
    &&& forall|user: u64|
        answers.contains_key(user) <==> (replies.contains_key(user) && replies[user] is Response)
    &&& forall|user: u64|
        answers.contains_key(user) ==> (#[trigger] answers[user])@ == replies[user]->Response_0@
}

impl ResponseOutputData {
    /// Gathers the answers of a poll, voter by voter.
    pub fn new(form: &Form) -> (data: Self)
        ensures
            is_transcript(data.answers@, form.replies@),
    {
        let keys = voter_list(&form.replies);
        let mut answers: BTreeMap<u64, Vec<String>> = BTreeMap::new();
        let mut i: usize = 0;
        while i < keys.len()
            invariant
                i <= keys.len(),
                keys@.to_set() == form.replies@.dom(),
                forall|u: u64|
                    answers@.contains_key(u) <==> (keys@.take(i as int).contains(u)
                        && form.replies@.contains_key(u) && form.replies@[u] is Response),
                forall|u: u64|
                    answers@.contains_key(u) ==> (#[trigger] answers@[u])@
                        == form.replies@[u]->Response_0@,
            decreases keys.len() - i,
        {
            let user = keys[i];
            proof {
                assert(keys@.to_set().contains(user));
                lemma_take_contains(keys@, i as int);
            }
            match form.replies.get(&user) {
                Some(Reply::Response(texts)) => {
                    answers.insert(user, copy_texts(texts));
                },
                _ => {},
            }
            i += 1;
        }
        assert(keys@.take(keys.len() as int) == keys@);
        assert forall|u: u64|
            form.replies@.contains_key(u) && form.replies@[u] is Response implies answers@.contains_key(
            u,
        ) by {
            assert(keys@.to_set().contains(u));
        }
        ResponseOutputData { answers }
    }

    /// The number of pages of the results: an overview and one page for
    /// each voter.
    pub fn pages(&self) -> (pages: usize)
        requires
            self.answers@.len() < usize::MAX,
        ensures
            pages == (self.answers@.len() + 1) as int,
    {
        self.answers.len() + 1
    }
}

/// The result of a raffle.
#[derive(Clone, Debug)]
pub struct RaffleOutputData {
    /// The voter who was drawn; nobody, if nobody entered.
    pub winner: Option<u64>,
}

impl RaffleOutputData {
    /// The entrant at position `pick`; nobody, if nobody entered.
    pub fn draw(entrants: &Vec<u64>, pick: usize) -> (data: Self)
        requires
            entrants.len() > 0 ==> pick < entrants.len(),
        ensures
            data.winner == (if entrants.len() == 0 {
                None
            } else {
                Some(entrants[pick as int])
            }),
    {
        if entrants.len() == 0 {
            RaffleOutputData { winner: None }
        } else {
            RaffleOutputData { winner: Some(entrants[pick]) }
        }
    }

    /// Draws the winner of a raffle at random among those who entered.
    /// With nobody entered there is no winner.
    pub fn new(form: &Form) -> (data: Self)
        ensures
            form.replies@.dom().len() == 0 ==> data.winner is None,
            form.replies@.dom().len() > 0 ==> data.winner is Some,
            data.winner matches Some(user) ==> form.replies@.contains_key(user),
    {
        let entrants = voter_list(&form.replies);
        proof {
            entrants@.unique_seq_to_set();
        }
        let pick = if entrants.len() > 0 {
            random_index(entrants.len())
        } else {
            0
        };
        let data = Self::draw(&entrants, pick);
        proof {
            if entrants.len() > 0 {
                assert(entrants@.to_set().contains(entrants@[pick as int]));
            }
        }
        data
    }

    /// The number of pages of the results: one.
    pub fn pages(&self) -> (pages: usize)
        ensures
            pages == 1,
    {
        1
    }
}

/// The results of a poll.
#[derive(Clone, Debug)]
pub enum Output {
    Choice(ChoiceOutputData),
    Response(ResponseOutputData),
    Raffle(RaffleOutputData),
}

impl Output {
    /// The kind of poll that the results belong to.
    pub open spec fn kind_spec(&self) -> Kind {
        match self {
            Output::Choice(_) => Kind::Choice,
            Output::Response(_) => Kind::Response,
            Output::Raffle(_) => Kind::Raffle,
        }
    }

    /// Whether these are results of a poll of the given kind with the
    /// given inputs and replies: the tally of a choice poll, the answers of
    /// a response poll, and for a raffle one of those who entered.
    pub open spec fn is_output_of(&self, kind: Kind, inputs: Seq<Input>, replies: Map<u64, Reply>) -> bool {
        match self {
            Output::Choice(data) => kind == Kind::Choice && is_tally(
                data.votes@,
                inputs,
                replies,
                inputs.len() as int,
            ) && data.votes.len() <= inputs.len(),
            Output::Response(data) => kind == Kind::Response && is_transcript(
                data.answers@,
                replies,
            ),
            Output::Raffle(data) => {
                &&& kind == Kind::Raffle
                &&& replies.dom().len() == 0 <==> data.winner is None
                &&& data.winner matches Some(user) ==> replies.contains_key(user)
            },
        }
    }

    /// Computes the results of a poll from the replies it holds.
    pub fn new(form: &Form) -> (output: Self)
        ensures
            output.is_output_of(form.kind, form.inputs@, form.replies@),
    {
        match form.kind {
            Kind::Choice => Output::Choice(ChoiceOutputData::new(form)),
            Kind::Response => Output::Response(ResponseOutputData::new(form)),
            Kind::Raffle => Output::Raffle(RaffleOutputData::new(form)),
        }
    }

    /// The number of pages of the results.
    pub open spec fn pages_spec(&self) -> int {
        match self {
            Output::Choice(data) => data.votes.len() + 1,
            Output::Response(data) => data.answers@.len() as int + 1,
            Output::Raffle(_) => 1,
        }
    }

    /// The number of pages of the results.
    pub fn pages(&self) -> (pages: usize)
        requires
            self.pages_spec() <= usize::MAX,
        ensures
            pages == self.pages_spec(),
    {
        match self {
            Output::Choice(data) => data.pages(),
            Output::Response(data) => data.pages(),
            Output::Raffle(data) => data.pages(),
        }
    }

    /// The page that `page` stands for: page zero is the last page, and a
    /// page past the end is the first.
    pub open spec fn wrap_page_spec(&self, page: usize) -> int {
        if page == 0 {
            self.pages_spec()
        } else if page > self.pages_spec() {
            1
        } else {
            page as int
        }
    }

    /// Brings a page number into range, going round at both ends.
    pub fn wrap_page(&self, page: usize) -> (wrapped: usize)
        requires
            self.pages_spec() <= usize::MAX,
        ensures
            wrapped == self.wrap_page_spec(page),
            1 <= wrapped <= self.pages_spec(),
    {
        let pages = self.pages();
        if page == 0 {
            pages
        } else if page > pages {
            1
        } else {
            page
        }
    }

    /// The identifier of a button that turns the pages.
    pub open spec fn pager_id(name: Seq<char>, user: u64, message: u64, page: int) -> Seq<char> {
        encode(
            name,
            seq![
                decimal_seq(user as nat),
                decimal_seq(message as nat),
                decimal_seq(page as nat),
            ],
        )
    }

    /// The two buttons below a page of the results.
    pub open spec fn pager(&self, disabled: bool, user: u64, message: u64, page: usize) -> Seq<
        ButtonView,
    > {
        let page = self.wrap_page_spec(page);
        let disabled = disabled || self.pages_spec() == 1;
        seq![
            ButtonView {
                custom_id: Self::pager_id(BUTTON_LAST@, user, message, page),
                disabled,
                emoji: Some(EmojiView::Unicode(seq!['⬅'])),
                label: None,
                style: ButtonStyle::Secondary,
            },
            ButtonView {
                custom_id: Self::pager_id(BUTTON_NEXT@, user, message, page),
                disabled,
                emoji: Some(EmojiView::Unicode(seq!['➡'])),
                label: None,
                style: ButtonStyle::Secondary,
            },
        ]
    }

    /// The buttons that turn the pages of the results of the poll of
    /// `user` that was posted as `message`. Both carry the page shown, and
    /// both are switched off when there is one page only.
    pub fn as_buttons(&self, disabled: bool, user: u64, message: u64, page: usize) -> (buttons: Vec<
        Button,
    >)
        requires
            self.pages_spec() <= usize::MAX,
        ensures
            buttons.deep_view() == self.pager(disabled, user, message, page),
    {
        let page = self.wrap_page(page);
        let disabled = disabled || self.pages() == 1;
        let last = Button::new(
            CustomId::new(BUTTON_LAST).arg_number(user).arg_number(message).arg_number(
                page as u64,
            ).to_string(),
        ).disabled(disabled).emoji('⬅').style(ButtonStyle::Secondary);
        let next = Button::new(
            CustomId::new(BUTTON_NEXT).arg_number(user).arg_number(message).arg_number(
                page as u64,
            ).to_string(),
        ).disabled(disabled).emoji('➡').style(ButtonStyle::Secondary);
        let mut buttons: Vec<Button> = Vec::new();
        buttons.push(last);
        buttons.push(next);
        proof {
            let empty = Seq::<Seq<char>>::empty();
            assert(empty.push(decimal_seq(user as nat)).push(decimal_seq(message as nat)).push(
                decimal_seq(page as nat),
            ) == seq![
                decimal_seq(user as nat),
                decimal_seq(message as nat),
                decimal_seq(page as nat),
            ]);
            assert(buttons.deep_view() == self.pager(disabled, user, message, page));
        }
        buttons
    }
}

/// The small print of a page of results.
pub open spec fn page_note(page: int, pages: int) -> Seq<char> {
    "Page "@ + decimal_seq(page as nat) + " / "@ + decimal_seq(pages as nat)
}

/// What every page of results has in common: the owner as author, their
/// colour and picture, the number of the page, and a link to the poll's
/// card if it has one.
pub open spec fn page_frame(
    owner: &UserProfile,
    anchor: Option<Anchor>,
    title: Seq<char>,
    description: Seq<char>,
    page: int,
    pages: int,
) -> EmbedView {
    EmbedView {
        author: Some(owner.author_spec()),
        color: Some(owner.colour_spec()),
        description: Some(description),
        fields: Seq::empty(),
        footer: Some(EmbedFooterView { text: page_note(page, pages), icon_url: None }),
        image: None,
        thumbnail: Some(owner.face@),
        title: Some(title),
        url: match anchor {
            Some(anchor) => Some(anchor.url()),
            None => None,
        },
    }
}

/// The small print of a page of results.
fn note(page: usize, pages: usize) -> (footer: EmbedFooter)
    ensures
        footer.deep_view() == (EmbedFooterView {
            text: page_note(page as int, pages as int),
            icon_url: None,
        }),
{
    let mut text = String::from_str("Page ");
    text.append(decimal(page as u64).as_str());
    text.append(" / ");
    text.append(decimal(pages as u64).as_str());
    EmbedFooter::new(text.as_str())
}

/// Builds what every page of results has in common.
fn frame(
    owner: &UserProfile,
    anchor: Option<Anchor>,
    title: &str,
    description: &str,
    page: usize,
    pages: usize,
) -> (embed: Embed)
    ensures
        embed@ == page_frame(owner, anchor, title@, description@, page as int, pages as int),
{
    let embed = Embed::new().author(owner.as_author()).color(owner.colour()).description(
        description,
    ).footer(note(page, pages)).thumbnail(owner.face.as_str()).title(title);
    match anchor {
        Some(anchor) => embed.url(anchor.to_string().as_str()),
        None => embed,
    }
}

/// The users behind an entry of the results as the page shows them: a note
/// when members are hidden or nobody is there, and otherwise a mention of
/// each, from the least identifier to the greatest.
pub open spec fn users_shown(users: Set<u64>, hidden: bool) -> Seq<char> {
    if hidden {
        "*Users are hidden*"@
    } else if users.len() == 0 {
        "*No responses*"@
    } else {
        mentions(ascending_seq(users), users.len() as int)
    }
}

/// The option at position `index` of a poll, if there is one.
pub open spec fn option_label(inputs: Seq<Input>, index: usize) -> Option<Seq<char>> {
    if index < inputs.len() && inputs[index as int] is Choice {
        Some(inputs[index as int].label_spec())
    } else {
        None
    }
}

/// The lines of the overview for the first `upto` entries: for each option
/// a bar of ten cells, its label, and its votes with their share among
/// `total` replies. Entries that name no option of the poll give no line.
pub open spec fn overview_lines(
    votes: Seq<(usize, BTreeSet<u64>)>,
    inputs: Seq<Input>,
    total: int,
    upto: int,
) -> Seq<char>
    decreases upto,
{
    if upto <= 0 {
        Seq::empty()
    } else {
        let front = overview_lines(votes, inputs, total, upto - 1);
        let entry = votes[upto - 1];
        let count = at_most(entry.1@.len() as int, total);
        match option_label(inputs, entry.0) {
            Some(label) => front + ChoiceOutputData::bar(count, total, 10) + " **"@ + label
                + "** - "@ + ChoiceOutputData::votes_line(count, total) + "\n"@,
            None => front,
        }
    }
}

impl ChoiceOutputData {
    /// The text of the overview.
    pub open spec fn overview_text(&self, form: &Form) -> Seq<char> {
        let total = form.replies@.dom().len() as int;
        "**Total Votes:** "@ + decimal_seq(total as nat) + "\n\n"@ + overview_lines(
            self.votes@,
            form.inputs@,
            total,
            self.votes.len() as int,
        )
    }

    /// The first page of the results: the number of replies, and for each
    /// option a bar, its label and its votes, in the order of the results.
    /// A count above the number of replies is shown as that number.
    pub fn overview(&self, form: &Form, owner: &UserProfile) -> (embed: Embed)
        requires
            self.votes.len() < usize::MAX,
        ensures
            embed@ == page_frame(
                owner,
                form.anchor,
                "Poll Results: Overview"@,
                self.overview_text(form),
                1,
                self.votes.len() + 1,
            ),
    {
        let total = form.replies.len();
        let mut description = String::from_str("**Total Votes:** ");
        description.append(decimal(total as u64).as_str());
        description.append("\n\n");
        let ghost head = description@;
        let mut i: usize = 0;
        assert(head + overview_lines(self.votes@, form.inputs@, total as int, 0) == head);
        while i < self.votes.len()
            invariant
                i <= self.votes.len(),
                total == form.replies@.dom().len(),
                description@ == head + overview_lines(
                    self.votes@,
                    form.inputs@,
                    total as int,
                    i as int,
                ),
            decreases self.votes.len() - i,
        {
            let index = self.votes[i].0;
            let size = self.votes[i].1.len();
            let count = if size <= total {
                size
            } else {
                total
            };
            if index < form.inputs.len() {
                match &form.inputs[index] {
                    Input::Choice(data) => {
                        description.append(Self::graph(count, total, 10).as_str());
                        description.append(" **");
                        description.append(data.label.as_str());
                        description.append("** - ");
                        description.append(Self::votes_text(count, total).as_str());
                        description.append("\n");
                    },
                    Input::Response(_) => {},
                }
            }
            assert(description@ =~= head + overview_lines(
                self.votes@,
                form.inputs@,
                total as int,
                i + 1,
            ));
            i += 1;
        }
        frame(owner, form.anchor, "Poll Results: Overview", description.as_str(), 1, self.pages())
    }

    /// The position, among the entries, of the one that a page shows.
    pub open spec fn entry_of(page: usize) -> int {
        if page < 2 {
            0
        } else {
            page - 2
        }
    }

    /// The text of a page that shows one option.
    pub open spec fn entry_text(&self, form: &Form, page: usize) -> Seq<char> {
        let entry = self.votes[Self::entry_of(page)];
        let total = form.replies@.dom().len() as int;
        let count = at_most(entry.1@.len() as int, total);
        Self::votes_line(count, total) + "\n"@ + Self::bar(count, total, 32)
            + "\n\n**Users:**\n>>> "@ + users_shown(entry.1@, form.content.hide_members)
    }

    /// A page of the results that shows one option: its votes with their
    /// share, a bar of thirty-two cells, and who voted for it unless
    /// members are hidden. Without such an entry, or without the option it
    /// names, what is missing is reported.
    pub fn specific(&self, form: &Form, owner: &UserProfile, page: usize) -> (r: Result<Embed>)
        requires
            self.votes.len() < usize::MAX,
        ensures
            if Self::entry_of(page) >= self.votes.len() {
                r == Err::<Embed, Error>(Error::MissingValue(Value::Other("Entry")))
            } else {
                match option_label(form.inputs@, self.votes[Self::entry_of(page)].0) {
                    None => r == Err::<Embed, Error>(Error::MissingValue(Value::Other("Input"))),
                    Some(label) => r matches Ok(embed) && embed@ == page_frame(
                        owner,
                        form.anchor,
                        "Poll Results: "@ + label,
                        self.entry_text(form, page),
                        page as int,
                        self.votes.len() + 1,
                    ),
                }
            },
    {
        let entry = self.page_entry(page)?;
        if entry.0 >= form.inputs.len() {
            return Err(Error::MissingValue(Value::Other("Input")));
        }
        let label = match &form.inputs[entry.0] {
            Input::Choice(data) => data.label.as_str(),
            Input::Response(_) => {
                return Err(Error::MissingValue(Value::Other("Input")));
            },
        };
        let total = form.replies.len();
        let size = entry.1.len();
        let count = if size <= total {
            size
        } else {
            total
        };
        let users = if form.content.hide_members {
            String::from_str("*Users are hidden*")
        } else if size == 0 {
            String::from_str("*No responses*")
        } else {
            mention_all(&members(&entry.1))
        };
        assert(users@ == users_shown(entry.1@, form.content.hide_members));
        let mut description = Self::votes_text(count, total);
        description.append("\n");
        description.append(Self::graph(count, total, 32).as_str());
        description.append("\n\n**Users:**\n>>> ");
        description.append(users.as_str());
        assert(description@ == self.entry_text(form, page));
        let mut title = String::from_str("Poll Results: ");
        title.append(label);
        Ok(frame(owner, form.anchor, title.as_str(), description.as_str(), page, self.pages()))
    }
}

/// The paragraphs of a voter's answers to the first `upto` questions: for
/// each question its label, and the answer on one line as a quotation.
/// Answers to what is no question of the poll give no paragraph.
pub open spec fn answer_fields(answers: Seq<String>, inputs: Seq<Input>, upto: int) -> Seq<
    EmbedFieldView,
>
    decreases upto,
{
    if upto <= 0 {
        Seq::empty()
    } else {
        let front = answer_fields(answers, inputs, upto - 1);
        if upto - 1 < inputs.len() && inputs[upto - 1] is Response {
            front.push(
                EmbedFieldView {
                    name: inputs[upto - 1].label_spec(),
                    value: "> "@ + single_line_seq(answers[upto - 1]@),
                    inline: false,
                },
            )
        } else {
            front
        }
    }
}

impl ResponseOutputData {
    /// The first page of the results: the number of voters who answered.
    pub fn overview(&self, form: &Form, owner: &UserProfile) -> (embed: Embed)
        requires
            self.answers@.len() < usize::MAX,
        ensures
            embed@ == page_frame(
                owner,
                form.anchor,
                "Poll Results: Overview"@,
                "**Total Responses:** "@ + decimal_seq(self.answers@.len()),
                1,
                (self.answers@.len() + 1) as int,
            ),
    {
        let mut description = String::from_str("**Total Responses:** ");
        description.append(decimal(self.answers.len() as u64).as_str());
        frame(owner, form.anchor, "Poll Results: Overview", description.as_str(), 1, self.pages())
    }

    /// The voter whose answers a page shows: voters are paged from the
    /// least identifier to the greatest, and the second page shows the
    /// first of them.
    pub fn page_user(&self, page: usize) -> (r: Result<u64>)
        ensures
            ({
                let index = if page < 2 {
                    0
                } else {
                    page - 2
                };
                let voters = ascending_seq(self.answers@.dom());
                if index < self.answers@.dom().len() {
                    r == Ok::<u64, Error>(voters[index])
                } else {
                    r == Err::<u64, Error>(Error::MissingValue(Value::Other("Entry")))
                }
            }),
    {
        let index = if page < 2 {
            0
        } else {
            page - 2
        };
        let voters = sorted_keys(&self.answers);
        if index < voters.len() {
            Ok(voters[index])
        } else {
            Err(Error::MissingValue(Value::Other("Entry")))
        }
    }

    /// The page of a voter's answers when members are shown or hidden.
    pub open spec fn answers_page(
        &self,
        form: &Form,
        voter: &UserProfile,
        page: usize,
    ) -> EmbedView {
        let hidden = form.content.hide_members;
        EmbedView {
            author: Some(
                if hidden {
                    EmbedAuthorView {
                        name: "Anonymous User"@,
                        icon_url: Some(voter.default_avatar_url@),
                        url: None,
                    }
                } else {
                    voter.author_spec()
                },
            ),
            color: Some(
                if hidden {
                    BOT_COLOR
                } else {
                    voter.colour_spec()
                },
            ),
            description: None,
            fields: answer_fields(
                self.answers@[voter.id]@,
                form.inputs@,
                self.answers@[voter.id]@.len() as int,
            ),
            footer: Some(
                EmbedFooterView {
                    text: page_note(page as int, (self.answers@.len() + 1) as int),
                    icon_url: None,
                },
            ),
            image: None,
            thumbnail: Some(
                if hidden {
                    voter.default_avatar_url@
                } else {
                    voter.face@
                },
            ),
            title: Some(
                if hidden {
                    "Poll Results: User #"@ + decimal_seq(
                        (if page == 0 {
                            0
                        } else {
                            page - 1
                        }) as nat,
                    )
                } else {
                    "Poll Results: "@ + voter.name@
                },
            ),
            url: match form.anchor {
                Some(anchor) => Some(anchor.url()),
                None => None,
            },
        }
    }

    /// A page of the results that shows what `voter` answered: one
    /// paragraph for each question. When members are hidden the page names
    /// nobody and shows the picture of users without one. A voter without
    /// answers is reported as a missing entry.
    pub fn specific(&self, form: &Form, voter: &UserProfile, page: usize) -> (r: Result<Embed>)
        requires
            self.answers@.len() < usize::MAX,
        ensures
            if self.answers@.contains_key(voter.id) {
                r matches Ok(embed) && embed@ == self.answers_page(form, voter, page)
            } else {
                r == Err::<Embed, Error>(Error::MissingValue(Value::Other("Entry")))
            },
    {
        let answers = match self.answers.get(&voter.id) {
            Some(answers) => answers,
            None => {
                return Err(Error::MissingValue(Value::Other("Entry")));
            },
        };
        let hidden = form.content.hide_members;
        let author = if hidden {
            EmbedAuthor::new("Anonymous User").icon_url(voter.default_avatar_url.as_str())
        } else {
            voter.as_author()
        };
        let color = if hidden {
            BOT_COLOR
        } else {
            voter.colour()
        };
        let thumbnail = if hidden {
            voter.default_avatar_url.as_str()
        } else {
            voter.face.as_str()
        };
        let mut title = String::from_str("Poll Results: ");
        if hidden {
            title.append("User #");
            let number = if page == 0 {
                0
            } else {
                page - 1
            };
            title.append(decimal(number as u64).as_str());
        } else {
            title.append(voter.name.as_str());
        }
        proof {
            if hidden {
                assert(title@ =~= "Poll Results: User #"@ + decimal_seq(
                    (if page == 0 {
                        0
                    } else {
                        page - 1
                    }) as nat,
                )) by {
                    reveal_strlit("Poll Results: User #");
                    reveal_strlit("Poll Results: ");
                    reveal_strlit("User #");
                    assert("Poll Results: User #"@ =~= "Poll Results: "@ + "User #"@);
                }
            }
        }
        let mut embed = Embed::new().author(author).color(color).footer(
            note(page, self.pages()),
        ).thumbnail(thumbnail).title(title.as_str());
        let ghost base = embed@;
        let mut index: usize = 0;
        while index < answers.len()
            invariant
                index <= answers.len(),
                embed@ == (EmbedView {
                    fields: answer_fields(answers@, form.inputs@, index as int),
                    ..base
                }),
            decreases answers.len() - index,
        {
            if index < form.inputs.len() {
                match &form.inputs[index] {
                    Input::Response(data) => {
                        let mut value = String::from_str("> ");
                        value.append(single_line(answers[index].as_str()).as_str());
                        embed = embed.field(data.label.as_str(), value.as_str(), false);
                    },
                    Input::Choice(_) => {},
                }
            }
            index += 1;
        }
        Ok(
            match form.anchor {
                Some(anchor) => embed.url(anchor.to_string().as_str()),
                None => embed,
            },
        )
    }
}

impl RaffleOutputData {
    /// The text of the page of a raffle: the number of entries, the winner,
    /// and who entered unless members are hidden.
    pub open spec fn page_text(&self, form: &Form) -> Seq<char> {
        "**Total Entries:** "@ + decimal_seq(form.replies@.dom().len()) + "\n"@ + (match self.winner {
            Some(winner) => "**Winner:** <@"@ + decimal_seq(winner as nat) + ">"@,
            None => "**Winner:** *No responses*"@,
        }) + "\n\n**Users:**\n>>> "@ + users_shown(form.replies@.dom(), form.content.hide_members)
    }

    /// The only page of the results of a raffle.
    pub fn as_embed(&self, form: &Form, owner: &UserProfile) -> (embed: Embed)
        ensures
            embed@ == page_frame(
                owner,
                form.anchor,
                "Poll Results: Overview"@,
                self.page_text(form),
                1,
                1,
            ),
    {
        let mut description = String::from_str("**Total Entries:** ");
        description.append(decimal(form.replies.len() as u64).as_str());
        description.append("\n");
        let ghost head = description@;
        match self.winner {
            Some(winner) => {
                description.append("**Winner:** <@");
                description.append(decimal(winner).as_str());
                description.append(">");
            },
            None => {
                description.append("**Winner:** *No responses*");
            },
        }
        description.append("\n\n**Users:**\n>>> ");
        let users = if form.content.hide_members {
            String::from_str("*Users are hidden*")
        } else if form.replies.len() == 0 {
            String::from_str("*No responses*")
        } else {
            mention_all(&sorted_keys(&form.replies))
        };
        assert(users@ == users_shown(form.replies@.dom(), form.content.hide_members));
        description.append(users.as_str());
        assert(description@ =~= self.page_text(form));
        frame(owner, form.anchor, "Poll Results: Overview", description.as_str(), 1, 1)
    }
}

impl Output {
    /// The user whose profile the page `page` of the results shows: the
    /// voter whose answers it holds, for the pages of a response poll after
    /// the first, and the poll's owner otherwise.
    pub fn page_profile(&self, form: &Form, page: usize) -> (r: Result<u64>)
        requires
            self.pages_spec() <= usize::MAX,
        ensures
            match self {
                Output::Response(data) if self.wrap_page_spec(page) != 1 => {
                    let index = self.wrap_page_spec(page) - 2;
                    if index < data.answers@.dom().len() {
                        r == Ok::<u64, Error>(ascending_seq(data.answers@.dom())[index])
                    } else {
                        r == Err::<u64, Error>(Error::MissingValue(Value::Other("Entry")))
                    }
                },
                _ => r == Ok::<u64, Error>(form.user),
            },
    {
        let page = self.wrap_page(page);
        match self {
            Output::Response(data) => {
                if page != 1 {
                    data.page_user(page)
                } else {
                    Ok(form.user)
                }
            },
            _ => Ok(form.user),
        }
    }

    /// The page `page` of the results, brought into range first. `profile`
    /// is the user that [`Output::page_profile`] names for the page. The
    /// first page is the overview; the others show one option of a choice
    /// poll, or the answers of one voter of a response poll.
    pub fn as_embed(&self, form: &Form, profile: &UserProfile, page: usize) -> (r: Result<Embed>)
        requires
            self.pages_spec() <= usize::MAX,
        ensures
            ({
                let page = self.wrap_page_spec(page);
                match self {
                    Output::Choice(data) => if page == 1 {
                        r matches Ok(embed) && embed@ == page_frame(
                            profile,
                            form.anchor,
                            "Poll Results: Overview"@,
                            data.overview_text(form),
                            1,
                            data.votes.len() + 1,
                        )
                    } else {
                        match option_label(form.inputs@, data.votes[page - 2].0) {
                            None => r == Err::<Embed, Error>(
                                Error::MissingValue(Value::Other("Input")),
                            ),
                            Some(label) => r matches Ok(embed) && embed@ == page_frame(
                                profile,
                                form.anchor,
                                "Poll Results: "@ + label,
                                data.entry_text(form, page as usize),
                                page,
                                data.votes.len() + 1,
                            ),
                        }
                    },
                    Output::Response(data) => if page == 1 {
                        r matches Ok(embed) && embed@ == page_frame(
                            profile,
                            form.anchor,
                            "Poll Results: Overview"@,
                            "**Total Responses:** "@ + decimal_seq(data.answers@.len()),
                            1,
                            (data.answers@.len() + 1) as int,
                        )
                    } else if data.answers@.contains_key(profile.id) {
                        r matches Ok(embed) && embed@ == data.answers_page(
                            form,
                            profile,
                            page as usize,
                        )
                    } else {
                        r == Err::<Embed, Error>(Error::MissingValue(Value::Other("Entry")))
                    },
                    Output::Raffle(data) => r matches Ok(embed) && embed@ == page_frame(
                        profile,
                        form.anchor,
                        "Poll Results: Overview"@,
                        data.page_text(form),
                        1,
                        1,
                    ),
                }
            }),
    {
        let page = self.wrap_page(page);
        match self {
            Output::Choice(data) => {
                if page == 1 {
                    Ok(data.overview(form, profile))
                } else {
                    data.specific(form, profile, page)
                }
            },
            Output::Response(data) => {
                if page == 1 {
                    Ok(data.overview(form, profile))
                } else {
                    data.specific(form, profile, page)
                }
            },
            Output::Raffle(data) => Ok(data.as_embed(form, profile)),
        }
    }
}

} // verus!
