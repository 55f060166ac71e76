use guild_bot::utility::handler::conclude;
use guild_bot::utility::handler::create_commands;
use guild_bot::utility::handler::dispatch;
use guild_bot::utility::handler::error_reply;
use guild_bot::utility::handler::presence;
use guild_bot::utility::handler::registration;
use guild_bot::utility::handler::ActivityKind;
use guild_bot::utility::handler::OnlineStatus;
use guild_bot::utility::handler::Registration;
use guild_bot::utility::handler::Command;
use guild_bot::utility::handler::Dispatch;
use guild_bot::utility::handler::Interaction;
use guild_bot::utility::handler::Outcome;
use guild_bot::utility::handler::Route;
use guild_bot::utility::Category;
use guild_bot::utility::Error;
use guild_bot::utility::Value;
use guild_bot::utility::BOT_COLOR;

fn command(name: &str) -> Interaction {
    Interaction::Command { name: name.to_string(), id: 77 }
}

fn component(custom_id: &str) -> Interaction {
    Interaction::Component { custom_id: custom_id.to_string(), id: 78 }
}

fn modal(custom_id: &str) -> Interaction {
    Interaction::Modal { custom_id: custom_id.to_string(), id: 79 }
}

#[test]
fn every_registered_command_routes_to_itself() {
    let all = [
        (Command::Apply, "apply"),
        (Command::Data, "data"),
        (Command::Embed, "embed"),
        (Command::Help, "help"),
        (Command::Offer, "offer"),
        (Command::Oracle, "oracle"),
        (Command::Ping, "ping"),
        (Command::Poll, "poll"),
        (Command::Quote, "quote"),
        (Command::Role, "role"),
    ];
    let registered = create_commands();
    assert_eq!(registered.len(), all.len());
    for (index, (key, name)) in all.iter().enumerate() {
        assert_eq!(key.name(), *name);
        assert_eq!(Command::from_name(name), Some(*key));
        assert_eq!(registered[index].name, *name);
        assert_eq!(command(name).route().unwrap(), Route::Command(*key));
        assert!(matches!(dispatch(&command(name)), Dispatch::Invoke(Route::Command(k)) if k == *key));
    }
    assert_eq!(Command::from_name("Poll"), None);
    assert_eq!(Command::from_name(""), None);
}

#[test]
fn components_and_modals_route_by_the_base_of_their_identifier() {
    assert_eq!(component("apply_accept;5").route().unwrap(), Route::Component(Command::Apply));
    assert_eq!(component("poll_choice;1;0").route().unwrap(), Route::Component(Command::Poll));
    assert_eq!(component("role_toggle;9").route().unwrap(), Route::Component(Command::Role));
    assert_eq!(modal("apply_submit").route().unwrap(), Route::Modal(Command::Apply));
    assert_eq!(modal("poll_submit;1").route().unwrap(), Route::Modal(Command::Poll));
}

#[test]
fn unknown_routing_key_yields_one_ephemeral_error_reply() {
    let cases = [
        (command("nothing"), "Invalid value: Command<nothing.77>", "Command<nothing.77>"),
        (component("ping_button;1"), "Invalid value: Component<ping_button;1.78>", "Component<ping_button;1.78>"),
        (component("unknown_x"), "Invalid value: Component<unknown_x.78>", "Component<unknown_x.78>"),
        (modal("role_toggle;1"), "Invalid value: Modal<role_toggle;1.79>", "Modal<role_toggle;1.79>"),
        (component(";1"), "Invalid identifier: CustomId<;1>", "Component<;1.78>"),
    ];
    for (interaction, message, label) in cases {
        let error = interaction.route().unwrap_err();
        assert_eq!(error.to_string(), message);
        assert_eq!(interaction.label(), label);
        match dispatch(&interaction) {
            Dispatch::Reject(Outcome::Failed { log, reply }) => {
                assert_eq!(log, format!("Failed: {label} - {message}"));
                assert!(reply.ephemeral);
                assert!(reply.buttons.is_empty());
                let embed = reply.embed.expect("the reply holds an embed");
                assert_eq!(embed.title.as_deref(), Some("Encountered an error!"));
                assert_eq!(embed.description, Some(format!("> {message}")));
                assert_eq!(embed.color, Some(BOT_COLOR));
            }
            other => panic!("{other:?}"),
        }
    }
    assert_eq!(command("nothing").route().unwrap_err().category(), Category::Routing);
}

#[test]
fn other_interactions_take_no_reply() {
    let ping = Interaction::Ping { token: "tok".to_string(), id: 5 };
    assert_eq!(ping.label(), "Ping<tok.5>");
    assert!(matches!(ping.route(), Err(Error::InvalidValue(Value::Interaction, t)) if t == "5"));
    match dispatch(&ping) {
        Dispatch::Reject(Outcome::Unanswered { log, silent }) => {
            assert_eq!(log, "Failed: Ping<tok.5> - Invalid value: Interaction<5>");
            assert_eq!(silent.to_string(), "Invalid value: Interaction<Ping>");
        }
        other => panic!("{other:?}"),
    }
    let auto = Interaction::Autocomplete { name: "poll".to_string(), id: 6 };
    assert_eq!(auto.label(), "Autocomplete<poll.6>");
    assert!(matches!(dispatch(&auto), Dispatch::Reject(Outcome::Unanswered { .. })));
}

#[test]
fn outcomes_of_handlers() {
    match conclude(&command("poll"), Ok(())) {
        Outcome::Succeeded { log } => assert_eq!(log, "Succeeded: Command<poll.77>"),
        other => panic!("{other:?}"),
    }
    match conclude(&modal("poll_submit;1"), Err(Error::Other("You do not have a poll"))) {
        Outcome::Failed { log, reply } => {
            assert_eq!(log, "Failed: Modal<poll_submit;1.79> - You do not have a poll");
            assert!(reply.ephemeral);
            assert_eq!(reply.embed.unwrap().description.as_deref(), Some("> You do not have a poll"));
        }
        other => panic!("{other:?}"),
    }
    let reply = error_reply(&Error::Serenity("Missing Permissions".to_string()));
    assert_eq!(reply.embed.unwrap().description.as_deref(), Some("> Missing Permissions"));
}

#[test]
fn presence_and_registration_depend_on_development() {
    let dev = presence(true);
    assert_eq!((dev.status, dev.kind, dev.name), (OnlineStatus::Idle, ActivityKind::Listening, "API events"));
    let live = presence(false);
    assert_eq!((live.status, live.kind, live.name), (OnlineStatus::DoNotDisturb, ActivityKind::Watching, "my employees"));
    assert_eq!(registration(true), Registration { global: false, guild: true });
    assert_eq!(registration(false), Registration { global: true, guild: false });
}
