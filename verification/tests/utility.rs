use guild_bot::command::apply::config::Config;
use guild_bot::command::apply::form::Form as Application;
use guild_bot::command::poll::form::Active;
use guild_bot::command::poll::form::Form as Poll;
use guild_bot::command::role::Selector;
use guild_bot::utility::anchor::Anchor;
use guild_bot::utility::dev_guild;
use guild_bot::utility::formatting::TimeFlag;
use guild_bot::utility::formatting::TimeString;
use guild_bot::utility::req::AsReq;
use guild_bot::utility::req::NewReq;
use guild_bot::utility::req::Req;
use guild_bot::utility::req::TryNewReq;
use guild_bot::utility::Category;
use guild_bot::utility::Error;
use guild_bot::utility::Value;
use guild_bot::utility::BOT_COLOR;

#[test]
fn request_paths_follow_their_layout() {
    let req: Req<Poll> = Req::new("poll/7", "9");
    assert_eq!(req.dir(), "data/poll/7");
    assert_eq!(req.path(), "data/poll/7/9.rmp");
    assert_eq!(<Active as NewReq<()>>::new_req(()).path(), "data/poll/.dat.rmp");
    assert_eq!(<Config as NewReq<u64>>::new_req(3).path(), "data/apply/3/.cfg.rmp");
    assert_eq!(<Application as NewReq<(u64, u64)>>::new_req((3, 4)).path(), "data/apply/3/4.rmp");
    assert_eq!(<Poll as NewReq<(u64, u64)>>::new_req((3, 4)).path(), "data/poll/3/4.rmp");
    assert_eq!(<Poll as NewReq<(u64, u64, u64)>>::new_req((3, 4, 5)).path(), "data/poll/3/4/5.rmp");
    assert_eq!(<Selector as NewReq<(u64, u64)>>::new_req((3, 4)).path(), "data/role/3/4.rmp");
}

#[test]
fn every_key_is_also_a_fallible_key() {
    let req = <Poll as TryNewReq<(u64, u64)>>::try_new_req((3, 4)).unwrap();
    assert_eq!(req.path(), "data/poll/3/4.rmp");
}

#[test]
fn distinct_guild_and_user_pairs_have_distinct_keys() {
    let ids = [1u64, 2, 11, 12, 21, 111, 112, 1112, u64::MAX];
    let mut seen: Vec<((u64, u64), String)> = Vec::new();
    for guild in ids {
        for user in ids {
            let path = <Poll as NewReq<(u64, u64)>>::new_req((guild, user)).path();
            for (pair, other) in &seen {
                assert_ne!(&path, other, "{pair:?} and {:?}", (guild, user));
            }
            seen.push(((guild, user), path));
        }
    }
    assert_eq!(seen.len(), 81);
}

#[test]
fn records_of_different_kinds_never_share_a_file() {
    let paths = [
        <Poll as NewReq<(u64, u64)>>::new_req((1, 2)).path(),
        <Poll as NewReq<(u64, u64, u64)>>::new_req((1, 2, 3)).path(),
        <Application as NewReq<(u64, u64)>>::new_req((1, 2)).path(),
        <Selector as NewReq<(u64, u64)>>::new_req((1, 2)).path(),
        <Config as NewReq<u64>>::new_req(1).path(),
        <Active as NewReq<()>>::new_req(()).path(),
    ];
    for (i, a) in paths.iter().enumerate() {
        for (j, b) in paths.iter().enumerate() {
            assert_eq!(a == b, i == j);
        }
    }
}

#[test]
fn a_record_knows_its_own_key() {
    let poll = Poll::new(9, guild_bot::command::poll::form::Kind::Raffle, guild_bot::command::poll::form::Content {
        title: String::new(),
        description: String::new(),
        hours: 1,
        image: None,
        hide_members: false,
        hide_results: false,
    });
    assert_eq!(<Poll as AsReq<u64>>::as_req(&poll, 5).path(), "data/poll/5/9.rmp");
    assert_eq!(<Poll as AsReq<(u64, u64)>>::as_req(&poll, (5, 77)).path(), "data/poll/5/9/77.rmp");
}

#[test]
fn anchor_links_to_its_message() {
    let anchor = Anchor::new(1, 22, 333);
    assert_eq!(anchor.to_string(), "https://discord.com/channels/1/22/333");
    assert!(anchor.is_valid());
    assert!(!Anchor::new(1, 0, 3).is_valid());
}

#[test]
fn anchor_knows_when_its_message_was_posted() {
    let anchor = Anchor::new(1, 2, 175928847299117063);
    assert_eq!(anchor.created_at(), 1462015105796);
    assert_eq!(anchor.created_at(), (175928847299117063u64 >> 22) as i64 + 1_420_070_400_000);
    assert_eq!(Anchor::new(1, 2, 1).created_at(), 1_420_070_400_000);
}

#[test]
fn time_strings_use_the_markup_of_the_platform() {
    assert_eq!(TimeString::new(1462015105796).to_string(), "<t:1462015105:R>");
    assert_eq!(TimeString::new(1999).flag(TimeFlag::ShortTime).to_string(), "<t:1:t>");
    assert_eq!(TimeString::new(-1999).flag(TimeFlag::LongDateTime).to_string(), "<t:-1:F>");
    assert_eq!(TimeString::new(-999).flag(TimeFlag::LongDate).to_string(), "<t:0:D>");
    assert_eq!(TimeString::new(0).flag(TimeFlag::ShortDate).to_string(), "<t:0:d>");
    assert_eq!(TimeString::new(5000).flag(TimeFlag::LongTime).to_string(), "<t:5:T>");
    assert_eq!(TimeString::new(5000).flag(TimeFlag::ShortDateTime).to_string(), "<t:5:f>");
    assert_eq!(TimeFlag::default(), TimeFlag::Relative);
}

#[test]
fn error_messages() {
    assert_eq!(Error::MissingId(Value::Guild).to_string(), "Missing identifier: Guild<?>");
    assert_eq!(Error::InvalidId(Value::User, "abc".into()).to_string(), "Invalid identifier: User<abc>");
    assert_eq!(Error::MissingValue(Value::Anchor).to_string(), "Missing value: Anchor<?>");
    assert_eq!(
        Error::InvalidValue(Value::Other("Status"), "9".into()).to_string(),
        "Invalid value: Status<9>"
    );
    assert_eq!(Error::Other("Your poll has already been sent").to_string(), "Your poll has already been sent");
    assert_eq!(Error::ReadWrite("disk full".into()).to_string(), "disk full");
    assert_eq!(Error::Decode("bad bytes".into()).to_string(), "bad bytes");
    assert_eq!(Error::Encode("too deep".into()).to_string(), "too deep");
    assert_eq!(Error::Serenity("Unknown Channel".into()).to_string(), "Unknown Channel");
}

#[test]
fn value_names() {
    let names = [
        (Value::Anchor, "Anchor"),
        (Value::Channel, "Channel"),
        (Value::Command, "Command"),
        (Value::Component, "Component"),
        (Value::CustomId, "CustomId"),
        (Value::Data, "Data"),
        (Value::Guild, "Guild"),
        (Value::Interaction, "Interaction"),
        (Value::Member, "Member"),
        (Value::Message, "Message"),
        (Value::Modal, "Modal"),
        (Value::Role, "Role"),
        (Value::User, "User"),
        (Value::Other("Token"), "Token"),
    ];
    for (value, name) in names {
        assert_eq!(value.to_string(), name);
    }
}

#[test]
fn error_categories() {
    assert_eq!(Error::ReadWrite(String::new()).category(), Category::Store);
    assert_eq!(Error::Decode(String::new()).category(), Category::Store);
    assert_eq!(Error::Encode(String::new()).category(), Category::Store);
    assert_eq!(Error::Serenity(String::new()).category(), Category::Platform);
    assert_eq!(Error::Other("no").category(), Category::Precondition);
    assert_eq!(Error::MissingId(Value::User).category(), Category::Field);
    assert_eq!(Error::MissingValue(Value::Data).category(), Category::Field);
    assert_eq!(Error::InvalidId(Value::Data, String::new()).category(), Category::Field);
    assert_eq!(Error::InvalidValue(Value::Data, String::new()).category(), Category::Field);
    for kind in [Value::Command, Value::Component, Value::Modal, Value::Interaction] {
        assert_eq!(Error::InvalidId(kind, String::new()).category(), Category::Routing);
        assert_eq!(Error::InvalidValue(kind, String::new()).category(), Category::Routing);
    }
}

#[test]
fn development_guild_is_read_from_its_setting() {
    assert!(matches!(dev_guild(None), Err(Error::MissingId(Value::Guild))));
    assert!(matches!(dev_guild(Some("12345".into())), Ok(12345)));
    assert!(matches!(
        dev_guild(Some("guild".into())),
        Err(Error::InvalidId(Value::Guild, text)) if text == "guild"
    ));
}

#[test]
fn the_colour_of_the_bot() {
    assert_eq!(BOT_COLOR, (172 << 16) | (90 << 8) | 110);
}
