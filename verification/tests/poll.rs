use guild_bot::command::poll::form::Content;
use guild_bot::command::poll::form::Form;
use guild_bot::command::poll::form::Kind;
use guild_bot::command::poll::form::Reply;
use guild_bot::command::poll::output::ChoiceOutputData;
use guild_bot::command::poll::output::Output;
use guild_bot::command::poll::output::RaffleOutputData;
use guild_bot::utility::Category;
use guild_bot::utility::Error;

fn content(hours: i64) -> Content {
    Content {
        title: "Lunch".to_string(),
        description: "Where do we eat?".to_string(),
        hours,
        image: None,
        hide_members: false,
        hide_results: false,
    }
}

fn choice_poll(owner: u64, options: usize) -> Form {
    let mut form = Form::new(owner, Kind::Choice, content(24));
    for n in 0..options {
        form.add_input(&format!("option {n}"), None, None).unwrap();
    }
    form
}

const GUILD: u64 = 175928847299117063;
const CHANNEL: u64 = 175928847299117064;
const MESSAGE: u64 = 175928847299117065;

#[test]
fn choice_tally_counts_and_orders() {
    let mut form = choice_poll(1, 2);
    form.send(GUILD, CHANNEL, MESSAGE);
    assert_eq!(form.vote(10, 0).unwrap(), true);
    assert_eq!(form.vote(11, 0).unwrap(), true);
    assert_eq!(form.vote(12, 1).unwrap(), true);
    let data = ChoiceOutputData::new(&form);
    assert_eq!(data.votes.len(), 2);
    assert_eq!(data.votes[0].0, 0);
    assert_eq!(data.votes[0].1.iter().copied().collect::<Vec<u64>>(), vec![10, 11]);
    assert_eq!(data.votes[1].0, 1);
    assert_eq!(data.votes[1].1.iter().copied().collect::<Vec<u64>>(), vec![12]);
    let total = form.replies.len() as f64;
    let share = |votes: usize| format!("{:.1}", votes as f64 / total * 100.0);
    assert_eq!(share(data.votes[0].1.len()), "66.7");
    assert_eq!(share(data.votes[1].1.len()), "33.3");
}

#[test]
fn choice_tally_puts_the_most_voted_first_and_keeps_ties_in_order() {
    let mut form = choice_poll(1, 4);
    form.send(GUILD, CHANNEL, MESSAGE);
    form.vote(10, 2).unwrap();
    form.vote(11, 2).unwrap();
    form.vote(12, 3).unwrap();
    form.vote(13, 1).unwrap();
    let data = ChoiceOutputData::new(&form);
    let order: Vec<(usize, usize)> = data.votes.iter().map(|(i, u)| (*i, u.len())).collect();
    assert_eq!(order, vec![(2, 2), (1, 1), (3, 1), (0, 0)]);
}

#[test]
fn second_identical_vote_retracts() {
    let mut form = choice_poll(1, 2);
    form.send(GUILD, CHANNEL, MESSAGE);
    assert_eq!(form.vote(10, 1).unwrap(), true);
    assert!(form.replies.contains_key(&10));
    assert_eq!(form.vote(10, 1).unwrap(), false);
    assert!(!form.replies.contains_key(&10));
}

#[test]
fn vote_for_another_option_replaces_the_reply() {
    let mut form = choice_poll(1, 2);
    form.send(GUILD, CHANNEL, MESSAGE);
    form.vote(10, 1).unwrap();
    assert_eq!(form.vote(10, 0).unwrap(), true);
    assert!(matches!(form.replies.get(&10), Some(Reply::Choice(0))));
    assert_eq!(form.replies.len(), 1);
}

#[test]
fn raffle_winner_is_one_of_the_entrants() {
    let mut form = Form::new(1, Kind::Raffle, content(1));
    form.send(GUILD, CHANNEL, MESSAGE);
    for user in [21, 22, 23] {
        assert_eq!(form.enter_raffle(user).unwrap(), true);
    }
    for _ in 0..50 {
        let data = RaffleOutputData::new(&form);
        let winner = data.winner.unwrap();
        assert!([21, 22, 23].contains(&winner));
    }
}

#[test]
fn raffle_without_entrants_has_no_winner() {
    let mut form = Form::new(1, Kind::Raffle, content(1));
    form.send(GUILD, CHANNEL, MESSAGE);
    assert_eq!(RaffleOutputData::new(&form).winner, None);
    assert_eq!(RaffleOutputData::draw(&vec![], 0).winner, None);
    assert_eq!(RaffleOutputData::draw(&vec![5, 6, 7], 1).winner, Some(6));
}

#[test]
fn closing_twice_fails_the_second_time() {
    let mut form = choice_poll(1, 2);
    form.send(GUILD, CHANNEL, MESSAGE);
    let closed = form.close().unwrap();
    assert!(closed.form.output.is_some());
    match closed.form.close() {
        Err(e) => {
            assert_eq!(e.category(), Category::Precondition);
            assert_eq!(e.to_string(), "The poll has already been closed");
        }
        Ok(_) => panic!("a closed poll was closed again"),
    }
}

#[test]
fn closing_a_draft_fails() {
    let form = choice_poll(1, 2);
    assert!(matches!(form.close(), Err(Error::Other("The poll has not been sent"))));
}

#[test]
fn end_to_end_choice_poll() {
    let mut form = Form::create(None, 1, Kind::Choice, content(24)).unwrap();
    form.add_input("yes", None, None).unwrap();
    form.add_input("no", None, None).unwrap();
    assert_eq!(form.check_send(false).unwrap(), None);
    let sent = form.send(GUILD, CHANNEL, MESSAGE);
    assert_eq!(sent.req.path(), format!("data/poll/{GUILD}/1.rmp"));
    assert_eq!(sent.entry, (GUILD, 1));
    form.vote(10, 0).unwrap();
    form.vote(11, 0).unwrap();
    let closed = form.close().unwrap();
    assert_eq!(closed.archive.path(), format!("data/poll/{GUILD}/1/{MESSAGE}.rmp"));
    assert_eq!(closed.draft.path(), format!("data/poll/{GUILD}/1.rmp"));
    assert_eq!(closed.entry, (GUILD, 1));
    let Some(Output::Choice(data)) = &closed.form.output else {
        panic!("a choice poll has a choice output");
    };
    let total = closed.form.replies.len();
    assert_eq!(total, 2);
    let rows: Vec<(usize, usize)> = data.votes.iter().map(|(i, u)| (*i, u.len())).collect();
    assert_eq!(rows, vec![(0, 2), (1, 0)]);
    let share = |votes: usize| format!("{:.1}", votes as f64 / total as f64 * 100.0);
    assert_eq!(share(rows[0].1), "100.0");
    assert_eq!(share(rows[1].1), "0.0");
}
