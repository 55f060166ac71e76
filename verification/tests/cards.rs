use guild_bot::command::apply::config::Config;
use guild_bot::command::apply::config::Content as Settings;
use guild_bot::command::apply::form::Form as Application;
use guild_bot::command::apply::form::Status;
use guild_bot::command::poll::form::Content;
use guild_bot::command::poll::form::Form;
use guild_bot::command::poll::form::Kind;
use guild_bot::command::poll::output::ChoiceOutputData;
use guild_bot::command::poll::output::Output;
use guild_bot::command::poll::output::RaffleOutputData;
use guild_bot::command::poll::output::ResponseOutputData;
use guild_bot::utility::platform::UserProfile;
use guild_bot::utility::seqs::ascending;
use guild_bot::utility::seqs::mention_all;
use guild_bot::utility::Error;
use guild_bot::utility::Value;
use guild_bot::utility::BOT_COLOR;

const G: u64 = 175928847299117063;
const C: u64 = 175928847299117064;
const M: u64 = 175928847299117065;
const SENT: i64 = (M >> 22) as i64 + 1_420_070_400_000;

fn profile(id: u64, accent: Option<u32>) -> UserProfile {
    UserProfile {
        id,
        name: "ada".to_string(),
        tag: "ada#0001".to_string(),
        face: "https://example.org/a.png".to_string(),
        default_avatar_url: "https://example.org/d.png".to_string(),
        accent_colour: accent,
        bot: false,
    }
}

fn poll(kind: Kind, inputs: &[&str]) -> Form {
    let mut form = Form::new(
        1,
        kind,
        Content {
            title: "Lunch".to_string(),
            description: "Where?".to_string(),
            hours: 24,
            image: Some("https://example.org/i.png".to_string()),
            hide_members: false,
            hide_results: true,
        },
    );
    for label in inputs {
        form.add_input(label, None, None).unwrap();
    }
    form.send(G, C, M);
    form
}

#[test]
fn numbers_are_listed_in_ascending_order() {
    assert_eq!(ascending(&vec![5, 1, 9, 3]), vec![1, 3, 5, 9]);
    assert_eq!(ascending(&vec![]), Vec::<u64>::new());
    assert_eq!(ascending(&vec![u64::MAX, 0]), vec![0, u64::MAX]);
    assert_eq!(mention_all(&vec![3, 40]), "<@3>\n<@40>\n");
}

#[test]
fn poll_card() {
    let form = poll(Kind::Choice, &["yes", "no"]);
    let card = form.as_embed_at(&profile(1, Some(0x00ff00)), 5);
    let closes = (SENT + 24 * 3_600_000) / 1000;
    assert_eq!(
        card.description,
        Some(format!("**Type:** 🔢 Choice\n**Closes:** <t:{closes}:R>\n\n*Members are shown*\n*Results are hidden*\n\n> Where?"))
    );
    assert_eq!(card.title.as_deref(), Some("Lunch"));
    assert_eq!(card.color, Some(0x00ff00));
    assert_eq!(card.image.as_deref(), Some("https://example.org/i.png"));
    assert_eq!(card.thumbnail.as_deref(), Some("https://example.org/a.png"));
    assert_eq!(card.author.unwrap().name, "ada#0001");
    assert_eq!(form.as_embed(&profile(1, None)).description, card.description);
    let message = form.as_message(&profile(1, None), true);
    assert_eq!(message.buttons.len(), 2);
    assert!(message.buttons.iter().all(|b| b.disabled));
    assert!(!message.ephemeral);
}

#[test]
fn choice_overview_page() {
    let mut form = poll(Kind::Choice, &["yes", "no", "maybe"]);
    form.vote(30, 1).unwrap();
    form.vote(10, 1).unwrap();
    form.vote(20, 0).unwrap();
    let data = ChoiceOutputData::new(&form);
    let page = data.overview(&form, &profile(1, None));
    assert_eq!(
        page.description.as_deref(),
        Some("**Total Votes:** 3\n\n`██████    ` **no** - 2 votes (66.7%)\n`███       ` **yes** - 1 votes (33.3%)\n`          ` **maybe** - 0 votes (0.0%)\n")
    );
    assert_eq!(page.title.as_deref(), Some("Poll Results: Overview"));
    assert_eq!(page.footer.unwrap().text, "Page 1 / 4");
    assert_eq!(page.url, Some(format!("https://discord.com/channels/{G}/{C}/{M}")));
    assert_eq!(page.color, Some(BOT_COLOR));
}

#[test]
fn choice_option_page() {
    let mut form = poll(Kind::Choice, &["yes", "no"]);
    form.vote(30, 1).unwrap();
    form.vote(10, 1).unwrap();
    form.vote(20, 0).unwrap();
    let data = ChoiceOutputData::new(&form);
    let page = data.specific(&form, &profile(1, None), 2).unwrap();
    assert_eq!(page.title.as_deref(), Some("Poll Results: no"));
    assert_eq!(
        page.description,
        Some(format!("2 votes (66.7%)\n`{}{}`\n\n**Users:**\n>>> <@10>\n<@30>\n", "█".repeat(21), " ".repeat(11)))
    );
    assert_eq!(page.footer.unwrap().text, "Page 2 / 3");
    assert!(matches!(data.specific(&form, &profile(1, None), 4), Err(Error::MissingValue(Value::Other("Entry")))));
    form.content.hide_members = true;
    let hidden = data.specific(&form, &profile(1, None), 3).unwrap().description.unwrap();
    assert!(hidden.ends_with(">>> *Users are hidden*"));
    form.content.hide_members = false;
    form.replies.clear();
    let empty = ChoiceOutputData::new(&form).specific(&form, &profile(1, None), 2).unwrap().description.unwrap();
    assert!(empty.starts_with("0 votes (0.0%)\n"));
    assert!(empty.ends_with(">>> *No responses*"));
}

#[test]
fn response_pages() {
    let mut form = poll(Kind::Response, &["why", "how"]);
    form.respond(30, vec!["because\nI can".to_string(), "slowly".to_string(), "extra".to_string()]).unwrap();
    form.respond(10, vec!["no idea".to_string()]).unwrap();
    let data = ResponseOutputData::new(&form);
    let overview = data.overview(&form, &profile(1, None));
    assert_eq!(overview.description.as_deref(), Some("**Total Responses:** 2"));
    assert_eq!(overview.footer.unwrap().text, "Page 1 / 3");
    assert_eq!(data.page_user(2).unwrap(), 10);
    assert_eq!(data.page_user(3).unwrap(), 30);
    assert!(matches!(data.page_user(4), Err(Error::MissingValue(Value::Other("Entry")))));
    let page = data.specific(&form, &profile(30, Some(7)), 3).unwrap();
    assert_eq!(page.title.as_deref(), Some("Poll Results: ada"));
    assert_eq!(page.color, Some(7));
    let fields: Vec<(&str, &str)> = page.fields.iter().map(|f| (f.name.as_str(), f.value.as_str())).collect();
    assert_eq!(fields, vec![("why", "> because I can"), ("how", "> slowly")]);
    assert!(matches!(data.specific(&form, &profile(99, None), 3), Err(Error::MissingValue(Value::Other("Entry")))));
    form.content.hide_members = true;
    let hidden = data.specific(&form, &profile(30, Some(7)), 3).unwrap();
    assert_eq!(hidden.title.as_deref(), Some("Poll Results: User #2"));
    assert_eq!(hidden.color, Some(BOT_COLOR));
    assert_eq!(hidden.author.unwrap().name, "Anonymous User");
    assert_eq!(hidden.thumbnail.as_deref(), Some("https://example.org/d.png"));
}

#[test]
fn raffle_page() {
    let mut form = poll(Kind::Raffle, &[]);
    let page = RaffleOutputData::draw(&vec![], 0).as_embed(&form, &profile(1, None));
    assert_eq!(
        page.description.as_deref(),
        Some("**Total Entries:** 0\n**Winner:** *No responses*\n\n**Users:**\n>>> *No responses*")
    );
    form.enter_raffle(30).unwrap();
    form.enter_raffle(20).unwrap();
    let page = RaffleOutputData::draw(&vec![20, 30], 1).as_embed(&form, &profile(1, None));
    assert_eq!(
        page.description.as_deref(),
        Some("**Total Entries:** 2\n**Winner:** <@30>\n\n**Users:**\n>>> <@20>\n<@30>\n")
    );
    assert_eq!(page.footer.unwrap().text, "Page 1 / 1");
}

#[test]
fn result_pages_by_number() {
    let mut form = poll(Kind::Response, &["why"]);
    form.respond(30, vec!["so".to_string()]).unwrap();
    let output = Output::new(&form);
    assert_eq!(output.page_profile(&form, 1).unwrap(), 1);
    assert_eq!(output.page_profile(&form, 2).unwrap(), 30);
    assert_eq!(output.page_profile(&form, 0).unwrap(), 30);
    assert_eq!(output.page_profile(&form, 3).unwrap(), 1);
    assert_eq!(output.as_embed(&form, &profile(1, None), 1).unwrap().title.as_deref(), Some("Poll Results: Overview"));
    assert_eq!(output.as_embed(&form, &profile(30, None), 2).unwrap().title.as_deref(), Some("Poll Results: ada"));
    let mut form = poll(Kind::Choice, &["yes", "no"]);
    form.vote(5, 1).unwrap();
    let output = Output::new(&form);
    assert_eq!(output.page_profile(&form, 2).unwrap(), 1);
    assert_eq!(output.as_embed(&form, &profile(1, None), 2).unwrap().title.as_deref(), Some("Poll Results: no"));
    assert_eq!(output.as_embed(&form, &profile(1, None), 0).unwrap().title.as_deref(), Some("Poll Results: yes"));
    assert_eq!(output.as_embed(&form, &profile(1, None), 9).unwrap().title.as_deref(), Some("Poll Results: Overview"));
}

#[test]
fn application_card() {
    let config = Config::new(
        C,
        77,
        Settings::new("Join".into(), "About us".into(), "https://example.org/t.png".into(), vec!["Name?".into(), "Why?".into(), "Age?".into()]),
    );
    let mut form = Application::new(5, vec!["Ada".to_string(), "Because".to_string()]);
    form.send(G, C, M);
    form.status = Status::Denied;
    form.reason = Some("too short".to_string());
    let card = form.as_embed_with(&config, &profile(5, None), 2, 0);
    assert_eq!(card.title.as_deref(), Some("Oh god, there's *another* one..."));
    assert_eq!(
        card.description,
        Some(format!("**Profile:** <@5>\n**Received:** <t:{}:R>\n**Status:** 👎 Denied\n**Reason:** too short", SENT / 1000))
    );
    let fields: Vec<(&str, &str, bool)> = card.fields.iter().map(|f| (f.name.as_str(), f.value.as_str(), f.inline)).collect();
    assert_eq!(fields, vec![("Name?", "> Ada", false), ("Why?", "> Because", false), ("Age?", "N/A", false)]);
    let random = form.as_embed(&config, &profile(5, None));
    assert_eq!(random.fields.len(), 3);
    assert_eq!(random.description, card.description);

    let notice = form.notify().unwrap();
    let note = notice.as_embed("Guild", Some("https://example.org/g.png"), "Sorry.", form.reason.as_deref());
    assert_eq!(note.title.as_deref(), Some("Your application has been denied."));
    assert_eq!(note.description.as_deref(), Some("Sorry.\n\n> too short"));
    assert_eq!(note.author.unwrap().icon_url.as_deref(), Some("https://example.org/g.png"));
    assert_eq!(notice.as_embed("Guild", None, "Sorry.", None).description.as_deref(), Some("Sorry."));

    let card = config.as_embed("Guild", None);
    assert_eq!(card.title.as_deref(), Some("Join"));
    assert_eq!(card.description.as_deref(), Some("About us"));
    assert_eq!(card.footer.unwrap().text, "Questions: 3");
    assert_eq!(card.thumbnail.as_deref(), Some("https://example.org/t.png"));
    assert_eq!(card.color, Some(BOT_COLOR));
}
