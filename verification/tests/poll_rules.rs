use guild_bot::command::poll::check_at;
use guild_bot::command::poll::component_request;
use guild_bot::command::poll::form::Active;
use guild_bot::command::poll::form::Change;
use guild_bot::command::poll::form::Content;
use guild_bot::command::poll::form::Form;
use guild_bot::command::poll::form::Kind;
use guild_bot::command::poll::form::Reply;
use guild_bot::command::poll::form::Stage;
use guild_bot::command::poll::input::Input;
use guild_bot::command::poll::judge;
use guild_bot::command::poll::modal_request;
use guild_bot::command::poll::output::ChoiceOutputData;
use guild_bot::command::poll::output::Output;
use guild_bot::command::poll::output::ResponseOutputData;
use guild_bot::command::poll::run_command;
use guild_bot::command::poll::run_component;
use guild_bot::command::poll::run_modal;
use guild_bot::command::poll::CommandPlan;
use guild_bot::command::poll::ComponentPlan;
use guild_bot::command::poll::ComponentRequest;
use guild_bot::command::poll::Verdict;
use guild_bot::utility::anchor::Anchor;
use guild_bot::utility::anchor::Anchored;
use guild_bot::utility::platform::ActionRow;
use guild_bot::utility::platform::ActionRowComponent;
use guild_bot::utility::platform::ButtonStyle;
use guild_bot::utility::platform::Emoji;
use guild_bot::utility::platform::InputText;
use guild_bot::utility::platform::ResolvedOption;
use guild_bot::utility::platform::ResolvedValue;
use guild_bot::utility::platform::UserProfile;
use guild_bot::utility::traits::AsButtonVec;
use guild_bot::utility::traits::TryAsModal;
use guild_bot::utility::Category;
use guild_bot::utility::Error;
use guild_bot::utility::Value;

const G: u64 = 175928847299117063;
const C: u64 = 175928847299117064;
const M: u64 = 175928847299117065;
const SENT: i64 = (M >> 22) as i64 + 1_420_070_400_000;

fn content(hours: i64) -> Content {
    Content {
        title: "Lunch".to_string(),
        description: "Where?".to_string(),
        hours,
        image: None,
        hide_members: false,
        hide_results: false,
    }
}

fn draft(kind: Kind, inputs: usize) -> Form {
    let mut form = Form::new(1, kind, content(24));
    for n in 0..inputs {
        form.add_input(&format!("input {n}"), None, None).unwrap();
    }
    form
}

fn open(kind: Kind, inputs: usize) -> Form {
    let mut form = draft(kind, inputs);
    form.send(G, C, M);
    form
}

fn option(name: &str, value: ResolvedValue) -> ResolvedOption {
    ResolvedOption { name: name.to_string(), value }
}

fn text(value: &str) -> ResolvedValue {
    ResolvedValue::String(value.to_string())
}

fn sub(name: &str, options: Vec<ResolvedOption>) -> Vec<ResolvedOption> {
    vec![option(name, ResolvedValue::SubCommand(options))]
}

fn field(name: &str, value: &str) -> ActionRow {
    ActionRow {
        components: vec![ActionRowComponent::InputText(InputText {
            custom_id: name.to_string(),
            value: value.to_string(),
        })],
    }
}

fn profile(id: u64, accent: Option<u32>) -> UserProfile {
    UserProfile {
        id,
        name: "ada".to_string(),
        tag: "ada#0001".to_string(),
        face: "https://example.org/a.png".to_string(),
        default_avatar_url: "https://example.org/d.png".to_string(),
        accent_colour: accent,
        bot: false,
    }
}

#[test]
fn one_draft_per_user() {
    let existing = draft(Kind::Choice, 0);
    let error = Form::create(Some(&existing), 1, Kind::Raffle, content(1)).unwrap_err();
    assert_eq!(error.to_string(), "You already have a poll");
    assert_eq!(error.category(), Category::Precondition);
    let form = Form::create(None, 1, Kind::Raffle, content(1)).unwrap();
    assert_eq!(form.stage(), Stage::Draft);
    assert!(form.inputs.is_empty() && form.replies.is_empty() && form.output.is_none());
}

#[test]
fn stages_follow_send_and_close() {
    let mut form = draft(Kind::Choice, 2);
    assert_eq!(form.stage(), Stage::Draft);
    form.send(G, C, M);
    assert_eq!(form.stage(), Stage::Active);
    assert_eq!(form.anchor().unwrap(), Anchor::new(G, C, M));
    let closed = form.close().unwrap();
    assert_eq!(closed.form.stage(), Stage::Closed);
    assert_eq!(closed.card, Anchor::new(G, C, M));
}

#[test]
fn input_caps_by_kind() {
    assert_eq!(Input::max_count(Kind::Choice), 10);
    assert_eq!(Input::max_count(Kind::Response), 5);
    assert_eq!(Input::max_count(Kind::Raffle), 0);
    let mut form = draft(Kind::Choice, 10);
    assert!(matches!(form.add_input("one more", None, None), Err(Error::Other("No more inputs may be added"))));
    assert_eq!(form.inputs.len(), 10);
    let mut form = draft(Kind::Response, 5);
    assert!(matches!(form.add_input("one more", None, None), Err(Error::Other("No more inputs may be added"))));
    let mut form = draft(Kind::Raffle, 0);
    assert!(matches!(form.add_input("any", None, None), Err(Error::Other("No more inputs may be added"))));
    assert!(form.inputs.is_empty());
}

#[test]
fn labels_are_unique_within_a_poll() {
    let mut form = draft(Kind::Choice, 2);
    assert!(matches!(form.add_input("input 1", None, None), Err(Error::Other("The given input already exists"))));
    assert_eq!(form.inputs.len(), 2);
    form.add_input("Input 1", None, None).unwrap();
    assert_eq!(form.inputs.len(), 3);
}

#[test]
fn inputs_match_the_kind_of_the_poll() {
    let mut form = draft(Kind::Choice, 0);
    form.add_input("yes", Some(Emoji::Unicode("👍".to_string())), Some("ignored")).unwrap();
    match &form.inputs[0] {
        Input::Choice(data) => {
            assert_eq!(data.label, "yes");
            assert!(matches!(&data.data, Some(Emoji::Unicode(e)) if e == "👍"));
        }
        other => panic!("{other:?}"),
    }
    assert_eq!(form.inputs[0].label(), "yes");
    assert_eq!(form.inputs[0].kind(), Kind::Choice);
    let mut form = draft(Kind::Response, 0);
    form.add_input("why", None, Some("in your words")).unwrap();
    match &form.inputs[0] {
        Input::Response(data) => assert_eq!(data.data.as_deref(), Some("in your words")),
        other => panic!("{other:?}"),
    }
}

#[test]
fn emoji_of_an_option_is_read_from_text() {
    let mut form = draft(Kind::Choice, 0);
    form.add_input_from("apple", Some("🍎"), None).unwrap();
    form.add_input_from("custom", Some("<:customemoji:600404340292059257>"), None).unwrap();
    form.add_input_from("moving", Some("<a:dance:5>"), None).unwrap();
    form.add_input_from("broken", Some("<:broken"), None).unwrap();
    form.add_input_from("empty", Some(""), None).unwrap();
    form.add_input_from("none", None, None).unwrap();
    let emojis: Vec<Option<&Emoji>> = form
        .inputs
        .iter()
        .map(|i| match i {
            Input::Choice(d) => d.data.as_ref(),
            Input::Response(_) => None,
        })
        .collect();
    assert!(matches!(emojis[0], Some(Emoji::Unicode(e)) if e == "🍎"));
    assert!(matches!(
        emojis[1],
        Some(Emoji::Custom { animated: false, id: 600404340292059257, name: Some(n) }) if n == "customemoji"
    ));
    assert!(matches!(emojis[2], Some(Emoji::Custom { animated: true, id: 5, .. })));
    assert!(emojis[3].is_none());
    assert!(emojis[4].is_none());
    assert!(emojis[5].is_none());
}

#[test]
fn drafts_only_are_modified() {
    let mut form = open(Kind::Choice, 2);
    let change = Change { kind: None, title: Some("x".into()), description: None, hours: None, image: None, hide_members: None, hide_results: None };
    assert!(matches!(form.modify(change), Err(Error::Other("Your poll has already been sent"))));
    assert_eq!(form.content.title, "Lunch");
    assert!(matches!(form.add_input("new", None, None), Err(Error::Other("Your poll has already been sent"))));
    assert!(matches!(form.remove_input(1, 0), Err(Error::Other("Your poll has already been sent"))));
    assert_eq!(form.inputs.len(), 2);
}

#[test]
fn modify_replaces_named_fields_and_a_new_kind_empties_inputs() {
    let mut form = draft(Kind::Choice, 3);
    let change = Change { kind: None, title: Some("Dinner".into()), description: None, hours: Some(48), image: Some("i.png".into()), hide_members: Some(true), hide_results: None };
    form.modify(change).unwrap();
    assert_eq!(form.content.title, "Dinner");
    assert_eq!(form.content.description, "Where?");
    assert_eq!(form.content.hours, 48);
    assert_eq!(form.content.image.as_deref(), Some("i.png"));
    assert!(form.content.hide_members && !form.content.hide_results);
    assert_eq!(form.inputs.len(), 3);
    let change = Change { kind: Some(Kind::Response), title: None, description: None, hours: None, image: None, hide_members: None, hide_results: None };
    form.modify(change).unwrap();
    assert_eq!(form.kind, Kind::Response);
    assert!(form.inputs.is_empty());
}

#[test]
fn inputs_are_removed_by_the_owner_only() {
    let mut form = draft(Kind::Choice, 3);
    assert!(matches!(form.remove_input(2, 0), Err(Error::Other("You cannot modify another user's poll"))));
    assert!(matches!(form.remove_input(1, 3), Err(Error::InvalidId(Value::Data, t)) if t == "3"));
    form.remove_input(1, 1).unwrap();
    let labels: Vec<&str> = form.inputs.iter().map(|i| i.label()).collect();
    assert_eq!(labels, vec!["input 0", "input 2"]);
}

#[test]
fn sending_needs_enough_inputs() {
    assert!(matches!(draft(Kind::Choice, 0).check_send(false), Err(Error::Other("Your poll does not have any inputs"))));
    assert!(matches!(draft(Kind::Choice, 1).check_send(false), Err(Error::Other("Your poll must have more than one input"))));
    assert!(matches!(draft(Kind::Response, 0).check_send(false), Err(Error::Other("Your poll does not have any inputs"))));
    assert_eq!(draft(Kind::Choice, 2).check_send(false).unwrap(), None);
    assert_eq!(draft(Kind::Response, 1).check_send(false).unwrap(), None);
    assert_eq!(draft(Kind::Raffle, 0).check_send(false).unwrap(), None);
    let sent = open(Kind::Choice, 2);
    assert!(matches!(sent.check_send(false), Err(Error::Other("The poll has already been sent"))));
    assert_eq!(sent.check_send(true).unwrap(), Some(Anchor::new(G, C, M)));
}

#[test]
fn votes_are_refused_outside_an_open_choice_poll() {
    let mut form = draft(Kind::Choice, 2);
    assert!(matches!(form.vote(10, 0), Err(Error::Other("The poll has not been sent"))));
    let mut form = open(Kind::Choice, 2);
    assert!(matches!(form.vote(1, 0), Err(Error::Other("You cannot respond to your own poll"))));
    assert!(matches!(form.vote(10, 2), Err(Error::InvalidId(Value::Data, t)) if t == "2"));
    assert!(form.replies.is_empty());
    let mut form = open(Kind::Raffle, 0);
    assert!(matches!(form.vote(10, 0), Err(Error::InvalidValue(Value::Data, t)) if t == "🎲 Raffle"));
    let mut closed = open(Kind::Choice, 2).close().unwrap().form;
    assert!(matches!(closed.vote(10, 0), Err(Error::Other("The poll has already been closed"))));
}

#[test]
fn a_user_holds_one_reply_at_most() {
    let mut form = open(Kind::Choice, 3);
    for index in [0, 1, 2, 1] {
        form.vote(10, index).unwrap();
        assert_eq!(form.replies.len(), 1);
    }
    assert!(matches!(form.replies.get(&10), Some(Reply::Choice(1))));
    form.vote(11, 1).unwrap();
    assert_eq!(form.replies.len(), 2);
}

#[test]
fn raffle_entries_toggle() {
    let mut form = open(Kind::Raffle, 0);
    assert_eq!(form.enter_raffle(10).unwrap(), true);
    assert!(matches!(form.replies.get(&10), Some(Reply::Raffle)));
    assert_eq!(form.enter_raffle(10).unwrap(), false);
    assert!(form.replies.is_empty());
    assert!(matches!(form.enter_raffle(1), Err(Error::Other("You cannot respond to your own form"))));
    let mut form = open(Kind::Choice, 2);
    assert!(form.enter_raffle(10).is_err());
}

#[test]
fn responses_replace_earlier_ones() {
    let mut form = open(Kind::Response, 2);
    form.respond(10, vec!["a".into(), "b".into()]).unwrap();
    form.respond(10, vec!["c".into(), "d".into()]).unwrap();
    assert_eq!(form.replies.len(), 1);
    assert!(matches!(form.replies.get(&10), Some(Reply::Response(a)) if a == &vec!["c".to_string(), "d".to_string()]));
    assert!(matches!(form.respond(1, vec![]), Err(Error::Other("You cannot respond to your own form"))));
    let data = ResponseOutputData::new(&form);
    assert_eq!(data.answers.len(), 1);
    assert_eq!(data.answers[&10], vec!["c", "d"]);
    assert_eq!(data.pages(), 2);
}

#[test]
fn output_is_computed_once() {
    let mut form = open(Kind::Choice, 2);
    form.vote(10, 0).unwrap();
    let first: Vec<(usize, usize)> = match form.output() {
        Output::Choice(data) => data.votes.iter().map(|(i, u)| (*i, u.len())).collect(),
        other => panic!("{other:?}"),
    };
    assert_eq!(first, vec![(0, 1), (1, 0)]);
    form.replies.insert(11, Reply::Choice(1));
    form.replies.insert(12, Reply::Choice(1));
    let second: Vec<(usize, usize)> = match form.output() {
        Output::Choice(data) => data.votes.iter().map(|(i, u)| (*i, u.len())).collect(),
        other => panic!("{other:?}"),
    };
    assert_eq!(second, first);
}

#[test]
fn pages_wrap_around() {
    let mut form = open(Kind::Choice, 3);
    form.vote(10, 0).unwrap();
    let output = Output::new(&form);
    assert_eq!(output.pages(), 4);
    assert_eq!(output.wrap_page(0), 4);
    assert_eq!(output.wrap_page(1), 1);
    assert_eq!(output.wrap_page(4), 4);
    assert_eq!(output.wrap_page(5), 1);
    assert_eq!(output.wrap_page(usize::MAX), 1);
    let raffle = Output::new(&open(Kind::Raffle, 0));
    assert_eq!(raffle.pages(), 1);
    assert_eq!(raffle.wrap_page(3), 1);
}

#[test]
fn pager_buttons_carry_owner_message_and_page() {
    let form = open(Kind::Choice, 3);
    let output = Output::new(&form);
    let buttons = output.as_buttons(false, 1, M, 0);
    assert_eq!(buttons[0].custom_id, format!("poll_last;1;{M};4"));
    assert_eq!(buttons[1].custom_id, format!("poll_next;1;{M};4"));
    assert!(buttons.iter().all(|b| !b.disabled && b.style == ButtonStyle::Secondary));
    let raffle = Output::new(&open(Kind::Raffle, 0));
    assert!(raffle.as_buttons(false, 1, M, 1).iter().all(|b| b.disabled));
}

#[test]
fn shares_and_bars() {
    assert_eq!(ChoiceOutputData::percent(2, 3), 667);
    assert_eq!(ChoiceOutputData::percent(1, 3), 333);
    assert_eq!(ChoiceOutputData::percent(0, 0), 0);
    assert_eq!(ChoiceOutputData::percent(2, 2), 1000);
    assert_eq!(ChoiceOutputData::percent(0, 2), 0);
    assert_eq!(ChoiceOutputData::percent(1, 16), 62);
    assert_eq!(ChoiceOutputData::percent(3, 16), 188);
    assert_eq!(ChoiceOutputData::votes_text(2, 3), "2 votes (66.7%)");
    assert_eq!(ChoiceOutputData::votes_text(1, 3), "1 votes (33.3%)");
    assert_eq!(ChoiceOutputData::votes_text(2, 2), "2 votes (100.0%)");
    assert_eq!(ChoiceOutputData::votes_text(0, 2), "0 votes (0.0%)");
    assert_eq!(ChoiceOutputData::votes_text(0, 0), "0 votes (0.0%)");
    for (votes, total) in [(0usize, 0usize), (0, 5), (1, 3), (2, 3), (7, 9), (1, 16), (5, 5)] {
        let real = if total == 0 { 0.0 } else { votes as f64 / total as f64 };
        assert_eq!(
            ChoiceOutputData::votes_text(votes, total),
            format!("{} votes ({:.1}%)", votes, real * 100.0)
        );
    }
    assert_eq!(ChoiceOutputData::graph(1, 2, 10), "`█████     `");
    assert_eq!(ChoiceOutputData::graph(0, 0, 4), "`    `");
    assert_eq!(ChoiceOutputData::graph(3, 3, 4), "`████`");
    assert_eq!(ChoiceOutputData::graph(2, 3, 10), "`██████    `");
}

#[test]
fn result_pages_show_entries() {
    let mut form = open(Kind::Choice, 2);
    form.vote(10, 1).unwrap();
    let data = ChoiceOutputData::new(&form);
    assert_eq!(data.page_entry(2).unwrap().0, 1);
    assert_eq!(data.page_entry(3).unwrap().0, 0);
    assert_eq!(data.page_entry(0).unwrap().0, 1);
    assert!(matches!(data.page_entry(4), Err(Error::MissingValue(Value::Other("Entry")))));
}

#[test]
fn card_buttons_by_kind() {
    let form = open(Kind::Choice, 2);
    let buttons = form.as_buttons(false, ());
    let ids: Vec<&str> = buttons.iter().map(|b| b.custom_id.as_str()).collect();
    assert_eq!(ids, vec!["poll_choice;1;0", "poll_choice;1;1"]);
    assert_eq!(buttons[1].label.as_deref(), Some("input 1"));
    let buttons = open(Kind::Response, 1).as_buttons(true, ());
    assert_eq!(buttons.len(), 1);
    assert_eq!(buttons[0].custom_id, "poll_response;1");
    assert_eq!(buttons[0].label.as_deref(), Some("Submit Response"));
    assert!(buttons[0].disabled);
    let buttons = open(Kind::Raffle, 0).as_buttons(false, ());
    assert_eq!(buttons[0].custom_id, "poll_raffle;1");
    assert_eq!(buttons[0].label.as_deref(), Some("Enter Raffle"));
}

#[test]
fn remove_and_results_messages() {
    let form = draft(Kind::Choice, 2);
    let message = form.as_remove_message(false);
    assert!(message.ephemeral);
    assert_eq!(message.embed.as_ref().unwrap().title.as_deref(), Some("Remove Inputs"));
    let ids: Vec<&str> = message.buttons.iter().map(|b| b.custom_id.as_str()).collect();
    assert_eq!(ids, vec!["poll_remove;1;0", "poll_remove;1;1"]);
    assert!(message.buttons.iter().all(|b| b.style == ButtonStyle::Danger));
    assert!(matches!(form.as_results_message(&profile(1, None), false), Err(Error::MissingValue(Value::Anchor))));

    let mut form = open(Kind::Choice, 2);
    form.content.hide_results = true;
    let message = form.as_results_message(&profile(1, Some(0x123456)), false).unwrap();
    assert!(!message.ephemeral);
    assert_eq!(message.buttons[0].custom_id, format!("poll_results;1;{M}"));
    let embed = message.embed.unwrap();
    assert_eq!(embed.color, Some(0x123456));
    assert_eq!(embed.url, Some(format!("https://discord.com/channels/{G}/{C}/{M}")));
    assert_eq!(embed.footer.unwrap().text, "Results are only visible to the poll author!");
}

#[test]
fn response_modal_asks_every_question() {
    let form = open(Kind::Response, 2);
    let modal = form.try_as_modal(()).unwrap();
    assert_eq!(modal.custom_id, "poll_submit;1");
    assert_eq!(modal.title, "Submit Response");
    let fields: Vec<(&str, &str)> = modal.inputs.iter().map(|i| (i.custom_id.as_str(), i.label.as_str())).collect();
    assert_eq!(fields, vec![("0", "input 0"), ("1", "input 1")]);
    assert!(modal.inputs.iter().all(|i| i.required && i.max_length == Some(256)));
    assert!(matches!(open(Kind::Choice, 2).try_as_modal(()), Err(Error::InvalidValue(Value::Data, t)) if t == "🔢 Choice"));
    assert!(matches!(draft(Kind::Response, 0).try_as_modal(()), Err(Error::Other("You must provide at least one input"))));
}

#[test]
fn polls_close_when_their_hours_have_passed() {
    let form = open(Kind::Choice, 2);
    let due = SENT + 24 * 3_600_000;
    assert!(!form.is_due(due - 1));
    assert!(form.is_due(due));
    assert_eq!(form.closes_at().0, due);
    assert_eq!(form.closes_at_from(5).0, due);
    assert_eq!(draft(Kind::Choice, 2).closes_at_from(1000).0, 1000 + 24 * 3_600_000);
    assert_eq!(judge(&Some(open(Kind::Choice, 2)), due), Verdict::Due);
    assert_eq!(judge(&Some(open(Kind::Choice, 2)), due - 1), Verdict::Open);
    assert_eq!(judge(&Some(draft(Kind::Choice, 2)), due), Verdict::Stale);
    assert_eq!(judge(&None, due), Verdict::Stale);
}

#[test]
fn sweep_closes_due_polls_and_prunes_stale_entries() {
    let mut long = open(Kind::Raffle, 0);
    long.content.hours = 240;
    let entries = vec![
        ((G, 1), Some(open(Kind::Choice, 2))),
        ((G, 2), None),
        ((G, 3), Some(long)),
        ((G, 4), Some(draft(Kind::Raffle, 0))),
        ((G, 5), Some(open(Kind::Raffle, 0))),
    ];
    let sweep = check_at(&entries, SENT + 24 * 3_600_000);
    assert_eq!(sweep.due, vec![(G, 1), (G, 5)]);
    assert_eq!(sweep.stale, vec![(G, 2), (G, 4)]);
    let mut active = Active::new();
    for key in [1, 2, 3, 4, 5] {
        active.insert(G, key);
    }
    active.prune(&sweep.stale);
    assert_eq!(active.0.iter().copied().collect::<Vec<_>>(), vec![(G, 1), (G, 3), (G, 5)]);
    active.remove(G, 1);
    assert!(!active.contains(G, 1));
    assert!(active.contains(G, 3));
}

#[test]
fn kinds_by_number_and_name() {
    for (kind, number, name) in [(Kind::Choice, 0, "🔢 Choice"), (Kind::Response, 1, "📝 Response"), (Kind::Raffle, 2, "🎲 Raffle")] {
        assert_eq!(Kind::try_from(number).unwrap(), kind);
        assert_eq!(kind.ordinal() as i64, number);
        assert_eq!(kind.to_string(), name);
    }
    assert!(matches!(Kind::try_from(3), Err(Error::InvalidId(Value::Data, t)) if t == "3"));
    assert!(matches!(Kind::try_from(-1), Err(Error::InvalidId(Value::Data, t)) if t == "-1"));
    assert_eq!(Reply::Choice(0).kind(), Kind::Choice);
    assert_eq!(Reply::Response(vec![]).kind(), Kind::Response);
    assert_eq!(Reply::Raffle.kind(), Kind::Raffle);
}

#[test]
fn command_creates_a_draft() {
    let o = sub("create", vec![
        option("kind", ResolvedValue::Integer(0)),
        option("title", text("Lunch")),
        option("description", text("line one\nline two")),
        option("hours", ResolvedValue::Integer(24)),
        option("hidden_results", ResolvedValue::Boolean(true)),
    ]);
    match run_command(Some(G), 1, "poll", &o, None).unwrap() {
        CommandPlan::Created(form) => {
            assert_eq!((form.user, form.kind), (1, Kind::Choice));
            assert_eq!(form.content.title, "Lunch");
            assert_eq!(form.content.description, "line one line two");
            assert_eq!(form.content.hours, 24);
            assert_eq!(form.content.image, None);
            assert!(!form.content.hide_members && form.content.hide_results);
        }
        other => panic!("{other:?}"),
    }
    assert!(matches!(run_command(Some(G), 1, "poll", &o, Some(draft(Kind::Raffle, 0))), Err(Error::Other("You already have a poll"))));
    assert!(matches!(run_command(None, 1, "poll", &o, None), Err(Error::MissingId(Value::Guild))));
    let o = sub("create", vec![option("kind", ResolvedValue::Integer(5))]);
    assert!(matches!(run_command(Some(G), 1, "poll", &o, None), Err(Error::InvalidId(Value::Data, t)) if t == "5"));
    let o = sub("create", vec![option("kind", ResolvedValue::Integer(1))]);
    assert!(matches!(run_command(Some(G), 1, "poll", &o, None), Err(Error::MissingValue(Value::Data))));
}

#[test]
fn command_plans_follow_the_state_of_the_poll() {
    let none = || sub("x", vec![]);
    for name in ["discard", "modify", "preview", "send", "close"] {
        assert!(matches!(run_command(Some(G), 1, "poll", &sub(name, vec![]), None), Err(Error::Other("You do not have a poll"))));
    }
    assert!(matches!(run_command(Some(G), 1, "poll", &none(), None), Err(Error::InvalidId(Value::Command, t)) if t == "poll"));
    assert!(matches!(run_command(Some(G), 1, "poll", &sub("discard", vec![]), Some(open(Kind::Raffle, 0))), Err(Error::Other("Your poll has already been sent"))));
    assert!(matches!(
        run_command(Some(G), 1, "poll", &sub("discard", vec![option("force", ResolvedValue::Boolean(true))]), Some(open(Kind::Raffle, 0))),
        Ok(CommandPlan::Discarded(_))
    ));
    assert!(matches!(run_command(Some(G), 1, "poll", &sub("preview", vec![]), Some(draft(Kind::Raffle, 0))), Ok(CommandPlan::Preview(_))));
    assert!(matches!(run_command(Some(G), 1, "poll", &sub("preview", vec![]), Some(open(Kind::Raffle, 0))), Err(Error::Other("Your poll has already been sent"))));
    assert!(matches!(run_command(Some(G), 1, "poll", &sub("send", vec![]), Some(draft(Kind::Choice, 1))), Err(Error::Other("Your poll must have more than one input"))));
    assert!(matches!(run_command(Some(G), 1, "poll", &sub("send", vec![]), Some(draft(Kind::Choice, 2))), Ok(CommandPlan::Send(_))));
    assert!(matches!(run_command(Some(G), 1, "poll", &sub("send", vec![]), Some(open(Kind::Choice, 2))), Err(Error::Other("Your poll has already been sent"))));
    assert!(matches!(run_command(Some(G), 1, "poll", &sub("close", vec![]), Some(draft(Kind::Choice, 2))), Err(Error::Other("Your poll has not been sent"))));
    match run_command(Some(G), 1, "poll", &sub("close", vec![]), Some(open(Kind::Choice, 2))).unwrap() {
        CommandPlan::Close(closed) => {
            assert!(closed.form.output.is_some());
            let again = run_command(Some(G), 1, "poll", &sub("close", vec![]), Some(closed.form)).unwrap_err();
            assert_eq!(again.category(), Category::Precondition);
        }
        other => panic!("{other:?}"),
    }
    let o = sub("modify", vec![option("kind", ResolvedValue::Integer(2)), option("title", text("Raffle!"))]);
    match run_command(Some(G), 1, "poll", &o, Some(draft(Kind::Choice, 2))).unwrap() {
        CommandPlan::Modified(form) => {
            assert_eq!(form.kind, Kind::Raffle);
            assert!(form.inputs.is_empty());
            assert_eq!(form.content.title, "Raffle!");
        }
        other => panic!("{other:?}"),
    }
}

#[test]
fn command_manages_inputs() {
    let group = |inner: Vec<ResolvedOption>| vec![option("input", ResolvedValue::SubCommandGroup(inner))];
    let o = group(sub("create", vec![option("label", text("yes")), option("emoji", text("👍"))]));
    match run_command(Some(G), 1, "poll", &o, Some(draft(Kind::Choice, 0))).unwrap() {
        CommandPlan::InputAdded(form) => {
            assert_eq!(form.inputs.len(), 1);
            assert_eq!(form.inputs[0].label(), "yes");
        }
        other => panic!("{other:?}"),
    }
    assert!(matches!(run_command(Some(G), 1, "poll", &o, None), Err(Error::Other("You do not have a poll"))));
    assert!(matches!(run_command(Some(G), 1, "poll", &group(sub("create", vec![])), None), Err(Error::MissingValue(Value::Data))));
    assert!(matches!(run_command(Some(G), 1, "poll", &group(sub("discard", vec![])), Some(draft(Kind::Choice, 0))), Err(Error::Other("Your poll does not have any inputs"))));
    assert!(matches!(run_command(Some(G), 1, "poll", &group(sub("discard", vec![])), Some(draft(Kind::Choice, 1))), Ok(CommandPlan::InputList(_))));
    assert!(matches!(run_command(Some(G), 1, "poll", &group(vec![]), None), Err(Error::InvalidId(Value::Command, _))));
}

#[test]
fn component_requests_are_read_from_identifiers() {
    let read = |text: &str| component_request(text, Some(G)).map(|r| r.0);
    assert_eq!(read("poll_remove;1;2").unwrap(), ComponentRequest::Remove { user: 1, index: 2 });
    assert_eq!(read("poll_choice;1;0").unwrap(), ComponentRequest::Choice { user: 1, index: 0 });
    assert_eq!(read("poll_response;1").unwrap(), ComponentRequest::Response { user: 1 });
    assert_eq!(read("poll_raffle;1").unwrap(), ComponentRequest::Raffle { user: 1 });
    assert_eq!(read("poll_results;1;9").unwrap(), ComponentRequest::Results { user: 1, message: 9, page: 1 });
    assert_eq!(read("poll_last;1;9;3").unwrap(), ComponentRequest::Results { user: 1, message: 9, page: 2 });
    assert_eq!(read("poll_last;1;9;0").unwrap(), ComponentRequest::Results { user: 1, message: 9, page: 0 });
    assert_eq!(read("poll_next;1;9;3").unwrap(), ComponentRequest::Results { user: 1, message: 9, page: 4 });
    assert_eq!(
        read(&format!("poll_next;1;9;{}", usize::MAX)).unwrap(),
        ComponentRequest::Results { user: 1, message: 9, page: usize::MAX }
    );
    let failures = [
        ("poll_choice", "Missing identifier: User<?>"),
        ("poll_choice;a;0", "Invalid identifier: User<a>"),
        ("poll_choice;1", "Missing identifier: Data<?>"),
        ("poll_choice;1;-1", "Invalid identifier: Data<-1>"),
        ("poll_results;1", "Missing identifier: Message<?>"),
        ("poll_results;1;m", "Invalid identifier: Message<m>"),
        ("poll_next;1;9", "Missing identifier: Data<?>"),
        ("poll_next;1;9;p", "Invalid identifier: Data<p>"),
        ("poll_unknown;1", "Invalid identifier: Component<poll_unknown>"),
    ];
    for (text, message) in failures {
        assert_eq!(read(text).unwrap_err().to_string(), message, "{text}");
    }
    assert!(matches!(component_request("poll_raffle;1", None), Err(Error::MissingId(Value::Guild))));
    assert_eq!(ComponentRequest::Raffle { user: 1 }.record(G).path(), format!("data/poll/{G}/1.rmp"));
    assert_eq!(
        ComponentRequest::Results { user: 1, message: 9, page: 1 }.record(G).path(),
        format!("data/poll/{G}/1/9.rmp")
    );
}

#[test]
fn components_act_on_the_stored_poll() {
    match run_component(ComponentRequest::Choice { user: 1, index: 1 }, 10, open(Kind::Choice, 2)).unwrap() {
        ComponentPlan::Voted { form, stands } => {
            assert!(stands);
            assert!(matches!(form.replies.get(&10), Some(Reply::Choice(1))));
            match run_component(ComponentRequest::Choice { user: 1, index: 1 }, 10, form).unwrap() {
                ComponentPlan::Voted { form, stands } => {
                    assert!(!stands);
                    assert!(!form.replies.contains_key(&10));
                }
                other => panic!("{other:?}"),
            }
        }
        other => panic!("{other:?}"),
    }
    assert!(matches!(
        run_component(ComponentRequest::Remove { user: 1, index: 0 }, 2, draft(Kind::Choice, 2)),
        Err(Error::Other("You cannot modify another user's poll"))
    ));
    match run_component(ComponentRequest::Remove { user: 1, index: 0 }, 1, draft(Kind::Choice, 2)).unwrap() {
        ComponentPlan::InputRemoved(form) => assert_eq!(form.inputs.len(), 1),
        other => panic!("{other:?}"),
    }
    assert!(matches!(
        run_component(ComponentRequest::Response { user: 1 }, 1, open(Kind::Response, 1)),
        Err(Error::Other("You cannot respond to your own form"))
    ));
    assert!(matches!(
        run_component(ComponentRequest::Response { user: 1 }, 2, open(Kind::Response, 1)),
        Ok(ComponentPlan::Answer(_))
    ));
    assert!(matches!(
        run_component(ComponentRequest::Raffle { user: 1 }, 2, open(Kind::Raffle, 0)),
        Ok(ComponentPlan::Entered { entered: true, .. })
    ));
    let mut private = open(Kind::Choice, 2).close().unwrap().form;
    private.content.hide_results = true;
    assert!(matches!(
        run_component(ComponentRequest::Results { user: 1, message: M, page: 1 }, 2, private),
        Err(Error::Other("The results of this poll are private"))
    ));
    let mut private = open(Kind::Choice, 2).close().unwrap().form;
    private.content.hide_results = true;
    assert!(matches!(
        run_component(ComponentRequest::Results { user: 1, message: M, page: 3 }, 1, private),
        Ok(ComponentPlan::Results { page: 3, .. })
    ));
}

#[test]
fn modals_record_answers() {
    assert_eq!(modal_request("poll_submit;1", Some(G)).unwrap(), (1, G));
    assert!(matches!(modal_request("poll_other;1", Some(G)), Err(Error::InvalidId(Value::Modal, t)) if t == "poll_other"));
    assert!(matches!(modal_request("poll_submit", Some(G)), Err(Error::MissingId(Value::User))));
    assert!(matches!(modal_request("poll_submit;1", None), Err(Error::MissingId(Value::Guild))));
    let rows = vec![field("1", "second"), field("0", "first"), field("2", "")];
    let form = run_modal(open(Kind::Response, 3), 10, &rows).unwrap();
    assert!(matches!(form.replies.get(&10), Some(Reply::Response(a)) if a == &vec!["first".to_string(), "second".to_string(), "N/A".to_string()]));
    assert!(matches!(run_modal(open(Kind::Response, 3), 1, &rows), Err(Error::Other("You cannot respond to your own form"))));
}
