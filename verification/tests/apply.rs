use guild_bot::command::apply::command_request;
use guild_bot::command::apply::component_request;
use guild_bot::command::apply::config::Config;
use guild_bot::command::apply::config::ConfigChange;
use guild_bot::command::apply::config::Content;
use guild_bot::command::apply::form::toast;
use guild_bot::command::apply::form::Form;
use guild_bot::command::apply::form::Status;
use guild_bot::command::apply::modal_request;
use guild_bot::command::apply::open_application;
use guild_bot::command::apply::CommandRequest;
use guild_bot::command::apply::ComponentRequest;
use guild_bot::command::apply::ModalRequest;
use guild_bot::utility::anchor::Anchor;
use guild_bot::utility::anchor::Anchored;
use guild_bot::utility::custom_id::CustomId;
use guild_bot::utility::formatting::TimeFlag;
use guild_bot::utility::platform::ActionRow;
use guild_bot::utility::platform::ActionRowComponent;
use guild_bot::utility::platform::ButtonStyle;
use guild_bot::utility::platform::Emoji;
use guild_bot::utility::platform::InputText;
use guild_bot::utility::platform::InputTextStyle;
use guild_bot::utility::platform::ResolvedOption;
use guild_bot::utility::platform::ResolvedValue;
use guild_bot::utility::platform::Role;
use guild_bot::utility::req::TryAsReq;
use guild_bot::utility::traits::AsButtonVec;
use guild_bot::utility::traits::AsModal;
use guild_bot::utility::Category;
use guild_bot::utility::Error;
use guild_bot::utility::Value;

const GUILD: u64 = 175928847299117063;
const CHANNEL: u64 = 175928847299117064;
const MESSAGE: u64 = 175928847299117065;

fn answers() -> Vec<String> {
    vec!["Ada".to_string(), "Because".to_string()]
}

fn stored(status: Status) -> Form {
    let mut form = Form::new(5, answers());
    form.send(GUILD, CHANNEL, MESSAGE);
    form.status = status;
    form
}

fn option(name: &str, value: ResolvedValue) -> ResolvedOption {
    ResolvedOption { name: name.to_string(), value }
}

fn text(value: &str) -> ResolvedValue {
    ResolvedValue::String(value.to_string())
}

fn field(name: &str, value: &str) -> ActionRow {
    ActionRow {
        components: vec![ActionRowComponent::InputText(InputText {
            custom_id: name.to_string(),
            value: value.to_string(),
        })],
    }
}

fn config() -> Config {
    Config::new(
        CHANNEL,
        77,
        Content::new(
            "Join us".to_string(),
            "Tell us about you".to_string(),
            "https://example.org/t.png".to_string(),
            vec!["Name?".to_string(), "Why?".to_string()],
        ),
    )
}

#[test]
fn submitting_without_a_record_succeeds_as_pending() {
    let form = Form::submit(None, 5, answers()).unwrap();
    assert_eq!(form.user, 5);
    assert_eq!(form.status, Status::Pending);
    assert_eq!(form.reason, None);
    assert_eq!(form.answers, answers());
    assert!(form.is_floating());
}

#[test]
fn submitting_after_a_resend_resets_to_pending() {
    let mut old = stored(Status::Resend);
    old.reason = Some("more detail please".to_string());
    let form = Form::submit(Some(&old), 5, answers()).unwrap();
    assert_eq!(form.status, Status::Pending);
    assert_eq!(form.reason, None);
}

#[test]
fn submitting_while_pending_accepted_or_denied_is_rejected() {
    let cases = [
        (Status::Pending, "Your application is pending"),
        (Status::Accepted, "Your application was accepted"),
        (Status::Denied, "Your application was denied"),
    ];
    for (status, message) in cases {
        let old = stored(status);
        let error = Form::submit(Some(&old), 5, answers()).unwrap_err();
        assert_eq!(error.to_string(), message);
        assert_eq!(error.category(), Category::Precondition);
        assert!(Form::check_submit(Some(&old)).is_err());
        assert!(open_application(Some(&old), &config()).is_err());
    }
    assert!(Form::check_submit(None).is_ok());
    assert!(Form::check_submit(Some(&stored(Status::Resend))).is_ok());
}

#[test]
fn update_to_the_same_status_is_rejected() {
    for status in [Status::Pending, Status::Accepted, Status::Denied, Status::Resend] {
        for overwrite in [false, true] {
            let mut form = stored(status);
            let error = form.update(status, Some("x".to_string()), overwrite).unwrap_err();
            assert_eq!(error.to_string(), "The application already has this status");
            assert_eq!(error.category(), Category::Precondition);
            assert_eq!(form.status, status);
            assert_eq!(form.reason, None);
        }
    }
}

#[test]
fn update_of_a_final_status_needs_overwrite() {
    for (from, to) in [(Status::Accepted, Status::Denied), (Status::Denied, Status::Accepted), (Status::Accepted, Status::Resend)] {
        let mut form = stored(from);
        let error = form.update(to, None, false).unwrap_err();
        assert_eq!(error.to_string(), "The user's application is already finalized");
        assert_eq!(error.category(), Category::Precondition);
        assert_eq!(form.status, from);
        let update = form.update(to, Some("second look".to_string()), true).unwrap();
        assert_eq!(form.status, to);
        assert_eq!(form.reason.as_deref(), Some("second look"));
        assert_eq!(update.grant_role, to == Status::Accepted);
        assert!(update.disable_buttons);
    }
}

#[test]
fn update_from_pending_says_what_follows() {
    let mut form = stored(Status::Pending);
    let update = form.update(Status::Accepted, None, false).unwrap();
    assert!(update.grant_role);
    assert!(update.disable_buttons);
    assert_eq!(update.card, Anchor::new(GUILD, CHANNEL, MESSAGE));
    assert_eq!(update.req.path(), format!("data/apply/{GUILD}/5.rmp"));
    assert_eq!(form.status, Status::Accepted);

    let mut form = stored(Status::Pending);
    let update = form.update(Status::Denied, Some("no".to_string()), false).unwrap();
    assert!(!update.grant_role);
    assert_eq!(form.reason.as_deref(), Some("no"));

    let mut form = stored(Status::Resend);
    let update = form.update(Status::Pending, None, false).unwrap();
    assert!(!update.disable_buttons);
    assert!(!update.grant_role);
}

#[test]
fn update_of_an_unposted_application_misses_its_anchor() {
    let mut form = Form::new(5, answers());
    assert!(matches!(
        form.update(Status::Accepted, None, false),
        Err(Error::MissingValue(Value::Anchor))
    ));
    assert_eq!(form.status, Status::Pending);
    assert!(matches!(form.try_as_req(()), Err(Error::MissingValue(Value::Anchor))));
    assert!(matches!(form.anchor(), Err(Error::MissingValue(Value::Anchor))));
}

#[test]
fn notices_by_status() {
    let titles = [
        (Status::Accepted, "Your application has been accepted!"),
        (Status::Denied, "Your application has been denied."),
        (Status::Resend, "You have been asked to resubmit your application."),
    ];
    for (status, title) in titles {
        let notice = stored(status).notify().unwrap();
        assert_eq!(notice.title, title);
        assert_eq!(notice.status, status);
    }
    let error = stored(Status::Pending).notify().unwrap_err();
    assert_eq!(error.to_string(), "Invalid value: Status<🤔 Pending>");
}

#[test]
fn status_numbers_and_names() {
    let all = [
        (Status::Pending, 0, "🤔 Pending"),
        (Status::Accepted, 1, "👍 Accepted"),
        (Status::Denied, 2, "👎 Denied"),
        (Status::Resend, 3, "🤷 Resend"),
    ];
    for (status, number, name) in all {
        assert_eq!(status.ordinal(), number);
        assert_eq!(Status::try_from(number as i64).unwrap(), status);
        assert_eq!(status.to_string(), name);
    }
    for number in [-1i64, 4, i64::MAX, i64::MIN] {
        match Status::try_from(number) {
            Err(Error::InvalidValue(Value::Data, text)) => assert_eq!(text, number.to_string()),
            other => panic!("{other:?}"),
        }
    }
}

#[test]
fn sending_anchors_the_application() {
    let mut form = Form::new(5, answers());
    let req = form.send(GUILD, CHANNEL, MESSAGE);
    assert_eq!(form.anchor().unwrap(), Anchor::new(GUILD, CHANNEL, MESSAGE));
    assert!(form.is_anchored());
    assert_eq!(req.path(), format!("data/apply/{GUILD}/5.rmp"));
    assert_eq!(form.try_as_req(()).unwrap().path(), req.path());
}

#[test]
fn an_application_dates_from_its_card() {
    let form = stored(Status::Pending);
    let time = form.created_string();
    assert_eq!(time.0, (MESSAGE >> 22) as i64 + 1_420_070_400_000);
    assert_eq!(time.1, Some(TimeFlag::Relative));
    let draft = Form::new(5, answers());
    assert_eq!(draft.created_string_at(1234).0, 1234);
    assert_eq!(draft.created_string().1, Some(TimeFlag::Relative));
}

#[test]
fn card_buttons_carry_the_applicant() {
    let form = stored(Status::Pending);
    let buttons = form.as_buttons(false, ());
    let ids: Vec<&str> = buttons.iter().map(|b| b.custom_id.as_str()).collect();
    assert_eq!(ids, vec!["apply_accept;5", "apply_deny;5", "apply_resend;5"]);
    let labels: Vec<Option<&str>> = buttons.iter().map(|b| b.label.as_deref()).collect();
    assert_eq!(labels, vec![Some("Accept"), Some("Deny"), Some("Resend")]);
    let styles: Vec<ButtonStyle> = buttons.iter().map(|b| b.style).collect();
    assert_eq!(styles, vec![ButtonStyle::Success, ButtonStyle::Danger, ButtonStyle::Secondary]);
    assert!(matches!(&buttons[0].emoji, Some(Emoji::Unicode(e)) if e == "👍"));
    assert!(buttons.iter().all(|b| !b.disabled));
    assert!(stored(Status::Pending).card_buttons().iter().all(|b| !b.disabled));
    assert!(stored(Status::Denied).card_buttons().iter().all(|b| b.disabled));
}

#[test]
fn update_modal_carries_applicant_and_status() {
    let modal = stored(Status::Pending).as_modal(Status::Denied);
    assert_eq!(modal.custom_id, "apply_update;5;2");
    assert_eq!(modal.title, "Update Application");
    assert_eq!(modal.inputs.len(), 1);
    assert_eq!(modal.inputs[0].custom_id, "reason");
    assert_eq!(modal.inputs[0].label, "Reason (optional)");
    assert_eq!(modal.inputs[0].max_length, Some(256));
    assert!(!modal.inputs[0].required);
    assert_eq!(modal.inputs[0].style, InputTextStyle::Short);
}

#[test]
fn guild_card_and_modal() {
    let config = config();
    let buttons = config.as_buttons(true, ());
    assert_eq!(buttons.len(), 2);
    assert_eq!(buttons[0].custom_id, "apply_modal");
    assert_eq!(buttons[1].custom_id, "apply_about");
    assert!(buttons.iter().all(|b| b.disabled));
    let modal = config.as_modal(());
    assert_eq!(modal.custom_id, "apply_submit");
    assert_eq!(modal.title, "Apply to Guild");
    let fields: Vec<(&str, &str)> =
        modal.inputs.iter().map(|i| (i.custom_id.as_str(), i.label.as_str())).collect();
    assert_eq!(fields, vec![("0", "Name?"), ("1", "Why?")]);
    assert!(modal.inputs.iter().all(|i| i.required && i.max_length == Some(1024)));
    assert!(modal.inputs.iter().all(|i| i.style == InputTextStyle::Paragraph));
    assert_eq!(open_application(None, &config).unwrap().custom_id, "apply_submit");
}

#[test]
fn settings_are_posted_and_changed() {
    let mut config = config();
    let posted = config.send(GUILD, CHANNEL, MESSAGE);
    assert_eq!(posted.stale, None);
    assert_eq!(posted.req.path(), format!("data/apply/{GUILD}/.cfg.rmp"));
    let posted = config.send(GUILD, CHANNEL, MESSAGE + 1);
    assert_eq!(posted.stale, Some(Anchor::new(GUILD, CHANNEL, MESSAGE)));

    let resend = config.modify(ConfigChange {
        title: None,
        description: None,
        thumbnail: None,
        questions: vec![None, None, None, None, None],
        channel: Some(9),
        role: None,
    });
    assert!(!resend);
    assert_eq!(config.channel, 9);
    assert_eq!(config.role, 77);

    let resend = config.modify(ConfigChange {
        title: Some("New".to_string()),
        description: None,
        thumbnail: None,
        questions: vec![None, Some("Why really?".to_string()), None, None, None],
        channel: None,
        role: Some(78),
    });
    assert!(resend);
    assert_eq!(config.content.title, "New");
    assert_eq!(config.content.description, "Tell us about you");
    assert_eq!(config.content.questions, vec!["Name?", "Why really?"]);
    assert_eq!(config.role, 78);
}

#[test]
fn command_requests() {
    let sub = vec![option(
        "update",
        ResolvedValue::SubCommand(vec![
            option("user", ResolvedValue::User(5)),
            option("status", ResolvedValue::Integer(2)),
            option("reason", text("spam")),
        ]),
    )];
    match command_request(Some(GUILD), "apply", &sub).unwrap() {
        CommandRequest::Update { user, status, reason, overwrite } => {
            assert_eq!((user, status, reason.as_deref(), overwrite), (5, Status::Denied, Some("spam"), false));
        }
        other => panic!("{other:?}"),
    }
    assert!(matches!(command_request(None, "apply", &sub), Err(Error::MissingId(Value::Guild))));

    let sub = vec![option("remove", ResolvedValue::SubCommand(vec![option("user", ResolvedValue::User(6))]))];
    assert!(matches!(command_request(Some(GUILD), "apply", &sub), Ok(CommandRequest::Remove { user: 6 })));

    let sub = vec![option("update", ResolvedValue::SubCommand(vec![option("user", ResolvedValue::User(5)), option("status", ResolvedValue::Integer(9))]))];
    assert!(matches!(
        command_request(Some(GUILD), "apply", &sub),
        Err(Error::InvalidValue(Value::Data, t)) if t == "9"
    ));

    assert!(matches!(
        command_request(Some(GUILD), "apply", &[]),
        Err(Error::InvalidId(Value::Command, t)) if t == "apply"
    ));
}

#[test]
fn config_request_reads_every_setting() {
    let sub = vec![option(
        "config",
        ResolvedValue::SubCommand(vec![
            option("title", text("Join")),
            option("description", text(r"line one\nline two")),
            option("thumbnail_link", text("https://example.org/t.png")),
            option("output_channel", ResolvedValue::Channel(CHANNEL)),
            option("acceptance_role", ResolvedValue::Role(Role { id: 77, name: "Member".to_string() })),
            option("question_1", text("Name?")),
            option("question_3", text("Age?")),
        ]),
    )];
    match command_request(Some(GUILD), "apply", &sub).unwrap() {
        CommandRequest::Config(config) => {
            assert_eq!(config.channel, CHANNEL);
            assert_eq!(config.role, 77);
            assert_eq!(config.content.title, "Join");
            assert_eq!(config.content.description, "line one\nline two");
            assert_eq!(config.content.questions, vec!["Name?", "Age?"]);
            assert!(config.is_floating());
        }
        other => panic!("{other:?}"),
    }
    let missing = vec![option("config", ResolvedValue::SubCommand(vec![option("title", text("Join"))]))];
    assert!(matches!(
        command_request(Some(GUILD), "apply", &missing),
        Err(Error::MissingValue(Value::Data))
    ));
    let wrong = vec![option("config", ResolvedValue::SubCommand(vec![option("title", ResolvedValue::Integer(1))]))];
    assert!(matches!(
        command_request(Some(GUILD), "apply", &wrong),
        Err(Error::InvalidValue(Value::Data, t)) if t == "title"
    ));
}

#[test]
fn modify_request_lists_what_changes() {
    let sub = vec![option(
        "modify",
        ResolvedValue::SubCommand(vec![option("question_2", text("Why?")), option("title", text("T"))]),
    )];
    match command_request(Some(GUILD), "apply", &sub).unwrap() {
        CommandRequest::Modify(change) => {
            assert_eq!(change.title.as_deref(), Some("T"));
            assert_eq!(change.description, None);
            assert_eq!(change.questions, vec![None, Some("Why?".to_string()), None, None, None]);
            assert_eq!(change.channel, None);
            assert_eq!(change.role, None);
        }
        other => panic!("{other:?}"),
    }
}

#[test]
fn component_requests() {
    assert_eq!(component_request("apply_modal", Some(1)).unwrap(), (ComponentRequest::Apply, 1));
    assert_eq!(component_request("apply_about", Some(1)).unwrap(), (ComponentRequest::About, 1));
    assert_eq!(
        component_request("apply_accept;5", Some(1)).unwrap(),
        (ComponentRequest::Review { user: 5, status: Status::Accepted }, 1)
    );
    assert_eq!(
        component_request("apply_deny;5", Some(1)).unwrap().0,
        ComponentRequest::Review { user: 5, status: Status::Denied }
    );
    assert_eq!(
        component_request("apply_resend;5", Some(1)).unwrap().0,
        ComponentRequest::Review { user: 5, status: Status::Resend }
    );
    assert!(matches!(component_request("apply_accept", Some(1)), Err(Error::MissingId(Value::User))));
    assert!(matches!(
        component_request("apply_accept;me", Some(1)),
        Err(Error::InvalidId(Value::User, t)) if t == "me"
    ));
    assert!(matches!(component_request("apply_modal", None), Err(Error::MissingId(Value::Guild))));
    assert!(matches!(
        component_request("apply_other", Some(1)),
        Err(Error::InvalidId(Value::Component, t)) if t == "apply_other"
    ));
    assert!(matches!(component_request("", None), Err(Error::InvalidId(Value::CustomId, _))));
}

#[test]
fn modal_requests() {
    let rows = vec![field("0", "Ada"), field("1", ""), field("2", "Because"), field("9", "ignored"), field("reason", "fine")];
    let id = CustomId::try_from("apply_submit").unwrap();
    match modal_request(&id, &rows).unwrap() {
        ModalRequest::Submit { answers } => assert_eq!(answers, vec!["Ada", "Because"]),
        other => panic!("{other:?}"),
    }
    let id = CustomId::try_from("apply_update;5;1").unwrap();
    match modal_request(&id, &rows).unwrap() {
        ModalRequest::Update { user, status, reason } => {
            assert_eq!((user, status, reason.as_deref()), (5, Status::Accepted, Some("fine")));
        }
        other => panic!("{other:?}"),
    }
    match modal_request(&id, &[]).unwrap() {
        ModalRequest::Update { reason, .. } => assert_eq!(reason, None),
        other => panic!("{other:?}"),
    }
    let cases = [
        ("apply_update", "Missing identifier: User<?>"),
        ("apply_update;x;1", "Invalid identifier: User<x>"),
        ("apply_update;5", "Missing value: Status<?>"),
        ("apply_update;5;one", "Invalid value: Status<one>"),
        ("apply_update;5;7", "Invalid value: Data<7>"),
        ("apply_nothing;5;1", "Invalid identifier: Modal<apply_nothing>"),
    ];
    for (text, message) in cases {
        let id = CustomId::try_from(text).unwrap();
        assert_eq!(modal_request(&id, &rows).unwrap_err().to_string(), message);
    }
}

#[test]
fn greetings() {
    assert_eq!(toast(0), "I spot a new member!");
    assert_eq!(toast(7), "Who let *this* guy in..?");
    let mut all: Vec<&str> = (0..8).map(toast).collect();
    all.dedup();
    assert_eq!(all.len(), 8);
}

#[test]
fn removal_deletes_card_and_record_and_leaves_roles_alone() {
    let form = stored(Status::Accepted);
    let removal = form.remove().unwrap();
    assert_eq!(removal.card, Anchor::new(GUILD, CHANNEL, MESSAGE));
    assert_eq!(removal.req.path(), format!("data/apply/{GUILD}/5.rmp"));
    assert_eq!(form.status, Status::Accepted);
    assert!(matches!(Form::new(5, answers()).remove(), Err(Error::MissingValue(Value::Anchor))));
}
