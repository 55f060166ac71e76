use guild_bot::command::help::run_command;
use guild_bot::command::help::sort_by_name;
use guild_bot::command::help::text_before;
use guild_bot::command::help::CommandInfo;
use guild_bot::utility::platform::UserProfile;
use guild_bot::utility::BOT_COLOR;

fn info(name: &str, id: u64) -> CommandInfo {
    CommandInfo { name: name.to_string(), id, description: format!("does {name}") }
}

fn bot() -> UserProfile {
    UserProfile {
        id: 1,
        name: "bot".to_string(),
        tag: "bot#0000".to_string(),
        face: "https://example.org/b.png".to_string(),
        default_avatar_url: "https://example.org/d.png".to_string(),
        accent_colour: None,
        bot: true,
    }
}

#[test]
fn texts_are_ordered_like_strings() {
    let words = ["", "a", "ab", "b", "B", "poll", "polls", "pol", "quote", "é", "z", "🎲", "a🎲", "apply"];
    for a in words {
        for b in words {
            assert_eq!(text_before(a, b), a <= b, "{a:?} {b:?}");
        }
    }
}

#[test]
fn commands_are_sorted_by_name() {
    let names = ["poll", "apply", "role", "data", "embed", "offer", "oracle", "help", "ping", "quote", "apply"];
    let commands: Vec<CommandInfo> = names.iter().enumerate().map(|(i, n)| info(n, i as u64)).collect();
    let sorted = sort_by_name(commands);
    let got: Vec<&str> = sorted.iter().map(|c| c.name.as_str()).collect();
    let mut expected = names.to_vec();
    expected.sort();
    assert_eq!(got, expected);
    assert_eq!(sorted.len(), names.len());
    assert!(sort_by_name(vec![]).is_empty());
}

#[test]
fn help_lists_the_commands() {
    let message = run_command(&bot(), vec![info("poll", 7), info("apply", 3)], "Start", "End");
    assert!(message.ephemeral);
    let embed = message.embed.unwrap();
    assert_eq!(embed.title.as_deref(), Some("Command List"));
    assert_eq!(embed.color, Some(BOT_COLOR));
    assert_eq!(embed.author.unwrap().name, "bot#0000");
    assert_eq!(
        embed.description.as_deref(),
        Some("Start\n</apply:3> - does apply\n</poll:7> - does poll\nEnd")
    );
    let empty = run_command(&bot(), vec![], "Start", "End").embed.unwrap();
    assert_eq!(empty.description.as_deref(), Some("Start\n*No global commands found...*\nEnd"));
}
