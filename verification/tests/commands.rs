use guild_bot::command::context;
use guild_bot::command::data;
use guild_bot::command::embed;
use guild_bot::command::find_bool;
use guild_bot::command::find_i64;
use guild_bot::command::find_str;
use guild_bot::command::get_any;
use guild_bot::command::get_bool;
use guild_bot::command::get_channel;
use guild_bot::command::get_i64;
use guild_bot::command::get_input_text;
use guild_bot::command::get_role;
use guild_bot::command::get_str;
use guild_bot::command::get_subcommand;
use guild_bot::command::get_subcommand_group;
use guild_bot::command::get_user;
use guild_bot::command::help;
use guild_bot::command::offer;
use guild_bot::command::oracle;
use guild_bot::command::ping;
use guild_bot::command::poll;
use guild_bot::command::quote;
use guild_bot::command::role;
use guild_bot::utility::platform::ActionRow;
use guild_bot::utility::platform::ActionRowComponent;
use guild_bot::utility::platform::CommandOptionType;
use guild_bot::utility::platform::Emoji;
use guild_bot::utility::platform::InputText;
use guild_bot::utility::platform::ResolvedOption;
use guild_bot::utility::platform::ResolvedValue;
use guild_bot::utility::platform::Role;
use guild_bot::utility::platform::UserProfile;
use guild_bot::utility::req::AsReq;
use guild_bot::utility::traits::AsEmbed;
use guild_bot::utility::Error;
use guild_bot::utility::Value;
use guild_bot::utility::BOT_COLOR;

fn option(name: &str, value: ResolvedValue) -> ResolvedOption {
    ResolvedOption { name: name.to_string(), value }
}

fn text(value: &str) -> ResolvedValue {
    ResolvedValue::String(value.to_string())
}

fn profile(id: u64, accent: Option<u32>, bot: bool) -> UserProfile {
    UserProfile {
        id,
        name: "ada".to_string(),
        tag: "ada#0001".to_string(),
        face: "https://example.org/a.png".to_string(),
        default_avatar_url: "https://example.org/d.png".to_string(),
        accent_colour: accent,
        bot,
    }
}

fn field(name: &str, value: &str) -> ActionRow {
    ActionRow {
        components: vec![ActionRowComponent::InputText(InputText {
            custom_id: name.to_string(),
            value: value.to_string(),
        })],
    }
}

#[test]
fn options_are_read_by_name_and_kind() {
    let o = vec![
        option("flag", ResolvedValue::Boolean(true)),
        option("where", ResolvedValue::Channel(4)),
        option("count", ResolvedValue::Integer(-3)),
        option("who", ResolvedValue::User(9)),
        option("what", text("hello")),
        option("rank", ResolvedValue::Role(Role { id: 6, name: "Mod".to_string() })),
        option("sub", ResolvedValue::SubCommand(vec![option("inner", text("x"))])),
        option("group", ResolvedValue::SubCommandGroup(vec![])),
        option("what", text("shadowed")),
        option("ratio", ResolvedValue::Number),
    ];
    assert_eq!(get_bool(&o, "flag").unwrap(), true);
    assert_eq!(get_channel(&o, "where").unwrap(), 4);
    assert_eq!(get_i64(&o, "count").unwrap(), -3);
    assert_eq!(get_user(&o, "who").unwrap(), 9);
    assert_eq!(get_str(&o, "what").unwrap(), "hello");
    assert_eq!(get_role(&o, "rank").unwrap().name, "Mod");
    assert_eq!(get_subcommand(&o, "sub").unwrap().len(), 1);
    assert_eq!(get_subcommand_group(&o, "group").unwrap().len(), 0);
    assert!(matches!(get_any(&o, "ratio"), Ok(ResolvedValue::Number)));
    assert!(matches!(get_any(&o, "missing"), Err(Error::MissingValue(Value::Data))));
    assert!(matches!(get_bool(&o, "missing"), Err(Error::MissingValue(Value::Data))));
    assert!(matches!(get_bool(&o, "what"), Err(Error::InvalidValue(Value::Data, n)) if n == "what"));
    assert!(matches!(get_str(&o, "flag"), Err(Error::InvalidValue(Value::Data, n)) if n == "flag"));
    assert!(matches!(get_i64(&o, "ratio"), Err(Error::InvalidValue(Value::Data, n)) if n == "ratio"));
    assert!(matches!(get_subcommand(&o, "group"), Err(Error::InvalidValue(Value::Data, _))));
    assert_eq!(find_str(&o, "what"), Some("hello"));
    assert_eq!(find_str(&o, "flag"), None);
    assert_eq!(find_bool(&o, "flag"), Some(true));
    assert_eq!(find_i64(&o, "nothing"), None);
}

#[test]
fn modal_fields_are_read_by_name() {
    let rows = vec![
        ActionRow { components: vec![] },
        ActionRow { components: vec![ActionRowComponent::Button] },
        field("a", ""),
        field("a", "first"),
        field("a", "second"),
        field("b", "other"),
    ];
    assert_eq!(get_input_text(&rows, "a").unwrap(), "first");
    assert_eq!(get_input_text(&rows, "b").unwrap(), "other");
    assert!(matches!(get_input_text(&rows, "c"), Err(Error::MissingValue(Value::Data))));
    assert!(matches!(get_input_text(&[], "a"), Err(Error::MissingValue(Value::Data))));
}

#[test]
fn context_reads_identifier_then_guild() {
    let (id, guild) = context("poll_raffle;1", Some(4)).unwrap();
    assert_eq!((id.base.as_str(), guild), ("poll", 4));
    assert!(matches!(context("poll_raffle;1", None), Err(Error::MissingId(Value::Guild))));
    assert!(matches!(context("", None), Err(Error::InvalidId(Value::CustomId, _))));
}

#[test]
fn schemas_declare_their_names_and_subcommands() {
    let names = |c: &guild_bot::utility::platform::CommandSchema| -> Vec<String> {
        c.options.iter().map(|o| o.name.clone()).collect()
    };
    let poll = poll::new();
    assert_eq!(poll.name, "poll");
    assert_eq!(poll.description, "Create or manage polls");
    assert!(!poll.dm_permission);
    assert_eq!(poll.default_member_permissions, 1 << 11);
    assert_eq!(names(&poll), vec!["create", "discard", "modify", "preview", "send", "close", "input"]);
    assert_eq!(poll.options[6].kind, CommandOptionType::SubCommandGroup);
    let create = &poll.options[0];
    let inner: Vec<&str> = create.options.iter().map(|o| o.name.as_str()).collect();
    assert_eq!(inner, vec!["kind", "title", "description", "hours", "image_link", "hidden_members", "hidden_results"]);
    assert_eq!(create.options[0].int_choices, vec![("🔢 Choice".to_string(), 0), ("📝 Response".to_string(), 1), ("🎲 Raffle".to_string(), 2)]);
    assert_eq!((create.options[3].min_int_value, create.options[3].max_int_value), (Some(1), Some(240)));
    assert!(create.options[..4].iter().all(|o| o.required));
    assert!(poll.options[2].options.iter().all(|o| !o.required));

    let apply = guild_bot::command::apply::new();
    assert_eq!(apply.name, "apply");
    assert_eq!(apply.default_member_permissions, 1 << 40);
    assert_eq!(names(&apply), vec!["config", "modify", "update", "remove"]);
    assert_eq!(apply.options[0].options.len(), 10);
    assert!(apply.options[0].options[3].text_channels_only);
    assert_eq!(apply.options[2].options[1].int_choices.len(), 3);

    let role = role::new();
    assert_eq!((role.name.as_str(), role.default_member_permissions), ("role", 1 << 28));
    assert_eq!(names(&role), vec!["create", "remove", "list", "send"]);

    let embed = embed::new();
    assert_eq!((embed.name.as_str(), embed.default_member_permissions), ("embed", 1 << 14));
    assert_eq!(embed.options.len(), 12);
    assert_eq!(embed.options[3].string_choices.len(), 22);
    assert_eq!(embed.options[3].string_choices[0], ("Default".to_string(), format!("{BOT_COLOR:06X}")));
    assert_eq!(embed.options[3].string_choices[1], ("User".to_string(), String::new()));
    assert_eq!(embed.options[3].string_choices[2], ("Red".to_string(), "E74C3C".to_string()));
    assert_eq!(embed.options[3].string_choices[21], ("Black".to_string(), "546E7A".to_string()));
    for (_, hex) in &embed.options[3].string_choices[2..] {
        assert_eq!(hex.len(), 6);
        assert!(guild_bot::utility::text::parse_hex(hex).is_some());
    }

    for (schema, name, dm, bits) in [
        (data::new(), "data", true, 1u64 << 31),
        (help::new(), "help", false, 1 << 31),
        (ping::new(), "ping", true, 1 << 31),
        (quote::new(), "quote", false, 1 << 11),
        (offer::new(), "offer", false, 1 << 11),
        (oracle::new(), "oracle", false, 1 << 11),
    ] {
        assert_eq!(schema.name, name);
        assert_eq!(schema.dm_permission, dm);
        assert_eq!(schema.default_member_permissions, bits);
    }
    assert_eq!(names(&offer::new()), vec!["offer", "price", "minutes"]);
    assert_eq!((offer::new().options[2].min_int_value, offer::new().options[2].max_int_value), (Some(5), Some(14400)));
}

#[test]
fn embed_command_builds_what_the_options_describe() {
    let o = vec![
        option("author_name", text("Ada")),
        option("author_icon", text("https://example.org/i.png")),
        option("color", text("E74C3C")),
        option("description", text(r"  first\nsecond  ")),
        option("footer_text", text("foot")),
        option("title_text", text("Title")),
        option("title_link", text("https://example.org")),
        option("ephemeral", ResolvedValue::Boolean(true)),
    ];
    let message = embed::run_command(&o, None).unwrap();
    assert!(message.ephemeral);
    let built = message.embed.unwrap();
    let author = built.author.unwrap();
    assert_eq!((author.name.as_str(), author.icon_url.as_deref(), author.url), ("Ada", Some("https://example.org/i.png"), None));
    assert_eq!(built.color, Some(0xE74C3C));
    assert_eq!(built.description.as_deref(), Some("first\nsecond"));
    assert_eq!(built.footer.unwrap().text, "foot");
    assert_eq!(built.title.as_deref(), Some("Title"));
    assert_eq!(built.url.as_deref(), Some("https://example.org"));
    assert_eq!(built.image, None);
}

#[test]
fn embed_command_colours() {
    let with = |hex: &str| vec![option("title_text", text("t")), option("color", text(hex))];
    assert_eq!(embed::run_command(&with(""), Some(0x010203)).unwrap().embed.unwrap().color, Some(0x010203));
    assert_eq!(embed::run_command(&with(""), None).unwrap().embed.unwrap().color, Some(BOT_COLOR));
    assert_eq!(embed::run_command(&with("zz"), Some(1)).unwrap().embed.unwrap().color, Some(BOT_COLOR));
    assert_eq!(embed::run_command(&with("ff"), Some(1)).unwrap().embed.unwrap().color, Some(0xff));
    assert_eq!(embed::run_command(&[option("title_text", text("t"))], Some(1)).unwrap().embed.unwrap().color, None);
    assert!(embed::wants_user_color(&with("")));
    assert!(!embed::wants_user_color(&with("ff")));
    assert!(!embed::wants_user_color(&[]));
}

#[test]
fn embed_command_refuses_nothing_and_too_much() {
    assert!(matches!(embed::run_command(&[], None), Err(Error::Other("A visible element must be provided"))));
    let only_link = vec![option("title_link", text("https://example.org")), option("color", text("ff"))];
    assert!(matches!(embed::run_command(&only_link, None), Err(Error::Other("A visible element must be provided"))));
    let long = "é".repeat(3000);
    let o = vec![option("description", text(&long)), option("title_text", text(&long))];
    assert!(embed::run_command(&o, None).is_ok());
    let o = vec![option("description", text(&long)), option("title_text", text(&long)), option("author_name", text("a"))];
    assert!(matches!(embed::run_command(&o, None), Err(Error::Other("Content must have at most 6000 characters"))));
    let padded = format!("  {long}  ");
    let o = vec![option("description", text(&padded)), option("title_text", text(&long))];
    assert!(embed::run_command(&o, None).is_ok());
    let o = vec![option("image_link", text("https://example.org/i.png"))];
    assert!(!embed::run_command(&o, None).unwrap().ephemeral);
}

#[test]
fn oracle_answers() {
    assert_eq!(oracle::answer(0).text, "It is certain.");
    assert_eq!(oracle::answer(0).mood, oracle::Mood::Good);
    assert_eq!(oracle::answer(10).mood, oracle::Mood::Unsure);
    assert_eq!(oracle::answer(19).text, "Very doubtful.");
    assert_eq!(oracle::answer(19).mood, oracle::Mood::Bad);
    assert_eq!(oracle::Mood::Good.color(), 0xBADA55);
    assert_eq!(oracle::Mood::Unsure.color(), 0x979C9F);
    assert_eq!(oracle::Mood::Bad.color(), 0xE74C3C);
    let o = vec![option("question", text("Will it rain?"))];
    let message = oracle::run_command_with(&o, "ada#0001", 8).unwrap();
    assert!(!message.ephemeral);
    let card = message.embed.unwrap();
    assert_eq!(card.description.as_deref(), Some("**ada#0001 asked...**\n> Will it rain?\n\n*Yes.*"));
    assert_eq!(card.color, Some(0xBADA55));
    assert_eq!(card.author.unwrap().name, "The Oracle");
    assert!(matches!(oracle::run_command_with(&[], "ada", 0), Err(Error::MissingValue(Value::Data))));
    let texts: Vec<&str> = (0..20).map(|i| oracle::answer(i).text).collect();
    for _ in 0..40 {
        let card = oracle::run_command(&o, "ada").unwrap().embed.unwrap();
        let description = card.description.unwrap();
        assert!(texts.iter().any(|t| description.ends_with(&format!("*{t}*"))));
    }
    let embed = oracle::Reply::new(oracle::Mood::Bad, "No.").as_embed(("x", "y"));
    assert_eq!(embed.description.as_deref(), Some("**x asked...**\n> y\n\n*No.*"));
}

#[test]
fn offers_expire_after_their_minutes() {
    let o = vec![option("offer", text("a book")), option("price", text("a pen")), option("minutes", ResolvedValue::Integer(5))];
    let user = profile(3, None, false);
    let card = offer::run_command_at(&o, &user, 1_000_000).unwrap().embed.unwrap();
    assert_eq!(card.description.as_deref(), Some("**Expires:** <t:1300:R>"));
    let fields: Vec<(&str, &str, bool)> = card.fields.iter().map(|f| (f.name.as_str(), f.value.as_str(), f.inline)).collect();
    assert_eq!(fields, vec![("Offer", "a book", false), ("Price", "a pen", false)]);
    assert_eq!(card.color, Some(BOT_COLOR));
    assert_eq!(card.thumbnail.as_deref(), Some("https://example.org/a.png"));
    assert_eq!(card.author.unwrap().name, "ada#0001");
    let far = vec![option("offer", text("a")), option("price", text("b")), option("minutes", ResolvedValue::Integer(i64::MAX))];
    assert!(matches!(offer::run_command_at(&far, &user, 1), Err(Error::InvalidValue(Value::Data, n)) if n == "minutes"));
    assert!(matches!(offer::run_command_at(&o[..2], &user, 1), Err(Error::MissingValue(Value::Data))));
    let now = offer::run_command(&o, &user).unwrap().embed.unwrap().description.unwrap();
    assert!(now.starts_with("**Expires:** <t:") && now.ends_with(":R>"));
}

#[test]
fn quotes() {
    let o = vec![option("user", ResolvedValue::User(3)), option("text", text("be kind"))];
    assert_eq!(quote::quoted(&o).unwrap(), 3);
    let card = quote::run_command(&o, &profile(3, Some(0x0000ff), false), 4).unwrap();
    assert!(!card.ephemeral);
    let embed = card.embed.unwrap();
    assert_eq!(embed.description.as_deref(), Some("> be kind"));
    assert_eq!(embed.color, Some(0x0000ff));
    assert_eq!(embed.author.unwrap().icon_url.as_deref(), Some("https://example.org/a.png"));
    assert!(matches!(quote::run_command(&o, &profile(3, None, false), 3), Err(Error::Other("You cannot quote yourself"))));
    assert!(matches!(quote::run_command(&o, &profile(3, None, true), 4), Err(Error::Other("You cannot quote a bot"))));
    assert!(matches!(quote::run_command(&o[..1], &profile(3, None, false), 4), Err(Error::MissingValue(Value::Data))));
}

#[test]
fn ping_measures_between_two_identifiers() {
    let earlier = 175928847299117063u64;
    let later = earlier + (250 << 22);
    assert_eq!(ping::latency(later, earlier), 250);
    assert_eq!(ping::latency(earlier, later), -250);
    assert_eq!(ping::pong(250).title.as_deref(), Some("Pong! (250ms)"));
    assert_eq!(ping::pong(-3).title.as_deref(), Some("Pong! (-3ms)"));
    let waiting = ping::waiting();
    assert!(waiting.ephemeral);
    assert_eq!(waiting.embed.unwrap().title.as_deref(), Some("Calculating..."));
}

#[test]
fn data_notice() {
    let message = data::run_command(&profile(1, None, true), "We store little.");
    assert!(message.ephemeral);
    let embed = message.embed.unwrap();
    assert_eq!(embed.title.as_deref(), Some("Data Usage and Privacy"));
    assert_eq!(embed.description.as_deref(), Some("We store little."));
    assert_eq!(embed.color, Some(BOT_COLOR));
}

#[test]
fn role_selectors() {
    let role_option = |id: u64| option("role", ResolvedValue::Role(Role { id, name: format!("role {id}") }));
    let create = |id: u64, icon: &str| vec![option("create", ResolvedValue::SubCommand(vec![role_option(id), option("icon", text(icon))]))];
    let selector = match role::run_command(Some(7), 1, "role", &create(5, "🍎"), None).unwrap() {
        role::CommandPlan::Created { selector, name } => {
            assert_eq!(name, "role 5");
            assert_eq!((selector.user, selector.guild, selector.roles.len()), (1, 7, 1));
            assert!(matches!(&selector.roles[0].icon, Emoji::Unicode(e) if e == "🍎"));
            selector
        }
        other => panic!("{other:?}"),
    };
    assert_eq!(selector.as_req(()).path(), "data/role/7/1.rmp");
    let selector = match role::run_command(Some(7), 1, "role", &create(6, "<:leaf:9>"), Some(selector)).unwrap() {
        role::CommandPlan::Created { selector, .. } => selector,
        other => panic!("{other:?}"),
    };
    assert_eq!(selector.roles.iter().map(|t| t.role).collect::<Vec<_>>(), vec![5, 6]);
    assert!(matches!(
        role::run_command(Some(7), 1, "role", &create(6, ""), None),
        Err(Error::InvalidId(Value::Role, t)) if t.is_empty()
    ));
    assert!(matches!(role::run_command(None, 1, "role", &create(6, "x"), None), Err(Error::MissingValue(Value::Guild))));

    let button = selector.roles[1].as_button(false, Some("Leaf")).unwrap();
    assert_eq!(button.custom_id, "role_toggle;6");
    assert_eq!(button.label.as_deref(), Some("Leaf"));
    assert!(matches!(button.emoji, Some(Emoji::Custom { id: 9, .. })));
    assert!(matches!(selector.roles[1].as_button(false, None), Err(Error::InvalidId(Value::Role, t)) if t == "6"));

    let remove = vec![option("remove", ResolvedValue::SubCommand(vec![role_option(5)]))];
    let selector = match role::run_command(Some(7), 1, "role", &remove, Some(selector)).unwrap() {
        role::CommandPlan::Removed { selector, name } => {
            assert_eq!(name, "role 5");
            selector
        }
        other => panic!("{other:?}"),
    };
    assert_eq!(selector.roles.iter().map(|t| t.role).collect::<Vec<_>>(), vec![6]);

    let send = vec![option("send", ResolvedValue::SubCommand(vec![option("text", text("Pick"))]))];
    assert!(matches!(role::run_command(Some(7), 1, "role", &send, None), Err(Error::Other("No selectors have been created"))));
    assert!(matches!(role::run_command(Some(7), 1, "role", &send, Some(selector)), Ok(role::CommandPlan::Send { title, .. }) if title == "Pick"));
    let list = vec![option("list", ResolvedValue::SubCommand(vec![]))];
    assert!(matches!(role::run_command(Some(7), 1, "role", &list, None), Ok(role::CommandPlan::List(_))));
    assert!(matches!(role::run_command(Some(7), 1, "role", &[], None), Err(Error::InvalidId(Value::Command, _))));
}

#[test]
fn removing_a_role_takes_out_all_of_its_toggles() {
    let mut selector = role::Selector::new(1, 7);
    for id in [5, 6, 5, 7, 5] {
        selector.add(id, Emoji::Unicode("x".to_string()));
    }
    selector.remove(5);
    assert_eq!(selector.roles.iter().map(|t| t.role).collect::<Vec<_>>(), vec![6, 7]);
    selector.remove(9);
    assert_eq!(selector.roles.len(), 2);
}

#[test]
fn role_buttons_toggle_membership() {
    assert_eq!(role::run_component("role_toggle;6", Some(&[1, 6, 9])).unwrap(), role::RoleChange::Remove(6));
    assert_eq!(role::run_component("role_toggle;6", Some(&[1, 9])).unwrap(), role::RoleChange::Add(6));
    assert_eq!(role::run_component("role_toggle;6", Some(&[])).unwrap(), role::RoleChange::Add(6));
    assert!(matches!(role::run_component("role_toggle;6", None), Err(Error::MissingValue(Value::Member))));
    assert!(matches!(role::run_component("role_toggle", Some(&[])), Err(Error::MissingValue(Value::Data))));
    assert!(matches!(role::run_component("role_toggle;six", Some(&[])), Err(Error::MissingValue(Value::Data))));
    assert!(matches!(role::run_component("role_other;6", Some(&[])), Err(Error::InvalidId(Value::Component, t)) if t == "role_other"));
    assert!(matches!(role::run_component("", Some(&[])), Err(Error::InvalidId(Value::CustomId, _))));
}
