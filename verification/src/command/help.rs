//! The command that lists the bot's commands.

use vstd::multiset::Multiset;
use vstd::prelude::*;
use vstd::string::*;

use crate::utility::platform::blank_embed;
use crate::utility::platform::CommandSchema;
use crate::utility::platform::Embed;
use crate::utility::platform::EmbedView;
use crate::utility::platform::Message;
use crate::utility::platform::MessageView;
use crate::utility::platform::UserProfile;
use crate::utility::platform::USE_APPLICATION_COMMANDS;
use crate::utility::text::chars_of;
use crate::utility::text::decimal;
use crate::utility::text::decimal_seq;
use crate::utility::BOT_COLOR;

verus! {

/// The name of the command.
pub const NAME: &'static str = "help";

/// The command as it is registered.
pub fn new() -> (command: CommandSchema)
    ensures
        command.name@ == NAME@,
        command.description@ == "Displays a list of bot commands"@,
        command.default_member_permissions == USE_APPLICATION_COMMANDS,
        !command.dm_permission,
        command.options@.len() == 0,
{
    CommandSchema::new(NAME).default_member_permissions(USE_APPLICATION_COMMANDS).description(
        "Displays a list of bot commands",
    ).dm_permission(false)
}

/// A command as the platform knows it.
#[derive(Debug)]
pub struct CommandInfo {
    pub name: String,
    pub id: u64,
    pub description: String,
}

/// Whether the text `a` stands before the text `b`, or is the same: the
/// order of dictionaries, character by character.
pub open spec fn text_le(a: Seq<char>, b: Seq<char>) -> bool
    decreases a.len(),
{
    if a.len() == 0 {
        true
    } else if b.len() == 0 {
        false
    } else if a[0] != b[0] {
        (a[0] as int) < (b[0] as int)
    } else {
        text_le(a.skip(1), b.skip(1))
    }
}

/// Of two texts, one stands before the other or they are the same.
pub proof fn lemma_text_le_total(a: Seq<char>, b: Seq<char>)
    ensures
        text_le(a, b) || text_le(b, a),
    decreases a.len(),
{
    if a.len() > 0 && b.len() > 0 && a[0] == b[0] {
        lemma_text_le_total(a.skip(1), b.skip(1));
    }
}

/// The order of texts is transitive.
pub proof fn lemma_text_le_transitive(a: Seq<char>, b: Seq<char>, c: Seq<char>)
    requires
        text_le(a, b),
        text_le(b, c),
    ensures
        text_le(a, c),
    decreases a.len(),
{
    if a.len() > 0 && b.len() > 0 && c.len() > 0 {
        if a[0] == b[0] && b[0] == c[0] {
            lemma_text_le_transitive(a.skip(1), b.skip(1), c.skip(1));
        }
    }
}

/// Whether the text `a` stands before the text `b`, or is the same.
pub fn text_before(a: &str, b: &str) -> (r: bool)
    ensures
        r == text_le(a@, b@),
{
    let x = chars_of(a);
    let y = chars_of(b);
    let mut i: usize = 0;
    assert(x@.skip(0) == x@ && y@.skip(0) == y@);
    while i < x.len() && i < y.len()
        invariant
            i <= x.len(),
            i <= y.len(),
            x@ == a@,
            y@ == b@,
            text_le(x@, y@) == text_le(x@.skip(i as int), y@.skip(i as int)),
        decreases x.len() - i,
    {
        proof {
            assert(x@.skip(i as int)[0] == x@[i as int]);
            assert(y@.skip(i as int)[0] == y@[i as int]);
            assert(x@.skip(i as int).skip(1) == x@.skip(i + 1));
            assert(y@.skip(i as int).skip(1) == y@.skip(i + 1));
        }
        if x[i] != y[i] {
            let before = x[i] < y[i];
            assert(before == ((x@[i as int] as int) < (y@[i as int] as int)));
            assert(x@.skip(i as int).len() > 0 && y@.skip(i as int).len() > 0);
            assert(text_le(x@.skip(i as int), y@.skip(i as int)) == before);
            return before;
        }
        i += 1;
    }
    i == x.len()
}

/// Whether the names of a list of commands stand in order.
pub open spec fn in_order(commands: Seq<CommandInfo>) -> bool {
    forall|i: int, j: int|
        0 <= i < j < commands.len() ==> text_le(
            (#[trigger] commands[i]).name@,
            (#[trigger] commands[j]).name@,
        )
}

/// Sorts commands by their names. The result holds the same commands,
/// each as often as before.
pub fn sort_by_name(commands: Vec<CommandInfo>) -> (sorted: Vec<CommandInfo>)
    ensures
        in_order(sorted@),
        sorted@.to_multiset() == commands@.to_multiset(),
{
    let mut rest = commands;
    let mut sorted: Vec<CommandInfo> = Vec::new();
    proof {
        assert(sorted@.to_multiset() =~= Multiset::<CommandInfo>::empty()) by {
            sorted@.to_multiset_ensures();
        }
    }
    while rest.len() > 0
        invariant
            in_order(sorted@),
            sorted@.to_multiset().add(rest@.to_multiset()) == commands@.to_multiset(),
        decreases rest.len(),
    {
        let ghost before_rest = rest@;
        let ghost before = sorted@;
        let next = rest.pop().unwrap();
        let mut at: usize = 0;
        while at < sorted.len() && text_before(sorted[at].name.as_str(), next.name.as_str())
            invariant
                at <= sorted.len(),
                sorted@ == before,
                forall|i: int| 0 <= i < at ==> text_le((#[trigger] sorted@[i]).name@, next.name@),
            decreases sorted.len() - at,
        {
            at += 1;
        }
        sorted.insert(at, next);
        proof {
            let after = sorted@;
            before.insert_ensures(at as int, next);
            assert(after == before.insert(at as int, next));
            assert forall|i: int, j: int| 0 <= i < j < after.len() implies text_le(
                (#[trigger] after[i]).name@,
                (#[trigger] after[j]).name@,
            ) by {
                if j < at {
                    assert(after[i] == before[i] && after[j] == before[j]);
                } else if j == at {
                    assert(after[i] == before[i]);
                } else if i < at {
                    assert(after[i] == before[i] && after[j] == before[j - 1]);
                } else if i == at {
                    assert(after[j] == before[j - 1]);
                    lemma_text_le_total(before[at as int].name@, next.name@);
                    if j - 1 > at {
                        lemma_text_le_transitive(
                            next.name@,
                            before[at as int].name@,
                            before[j - 1].name@,
                        );
                    }
                } else {
                    assert(after[i] == before[i - 1] && after[j] == before[j - 1]);
                }
            }
            assert(after.remove(at as int) =~= before);
            after.to_multiset_ensures();
            before.to_multiset_ensures();
            before_rest.to_multiset_ensures();
            rest@.to_multiset_ensures();
            assert(after[at as int] == next);
            assert(before.to_multiset() =~= after.to_multiset().remove(next));
            assert(after.to_multiset().count(next) > 0);
            assert(after.to_multiset() =~= before.to_multiset().insert(next));
            assert(before_rest == rest@.push(next));
            assert(before_rest.to_multiset() =~= rest@.to_multiset().insert(next));
            assert(after.to_multiset().add(rest@.to_multiset()) =~= before.to_multiset().add(
                before_rest.to_multiset(),
            ));
        }
    }
    proof {
        rest@.to_multiset_ensures();
        assert(rest@.to_multiset() =~= Multiset::<CommandInfo>::empty());
        assert(sorted@.to_multiset().add(rest@.to_multiset()) =~= sorted@.to_multiset());
    }
    sorted
}

/// The lines that list the first `upto` commands: for each a line feed,
/// the command as a link, a dash and its description.
pub open spec fn listing(commands: Seq<CommandInfo>, upto: int) -> Seq<char>
    decreases upto,
{
    if upto <= 0 {
        Seq::empty()
    } else {
        listing(commands, upto - 1) + "\n</"@ + commands[upto - 1].name@ + seq![':'] + decimal_seq(
            commands[upto - 1].id as nat,
        ) + "> - "@ + commands[upto - 1].description@
    }
}

/// The text of the reply: the opening, the commands or a note that there
/// are none, and the ending.
pub open spec fn help_text(commands: Seq<CommandInfo>, start: Seq<char>, end: Seq<char>) -> Seq<
    char,
> {
    if commands.len() == 0 {
        start + "\n*No global commands found...*\n"@ + end
    } else {
        start + listing(commands, commands.len() as int) + seq!['\n'] + end
    }
}

/// The reply: the bot's commands in the order of their names, between the
/// texts `start` and `end`, under the bot's own name and for the eyes of
/// the user who asked.
pub fn run_command(bot: &UserProfile, commands: Vec<CommandInfo>, start: &str, end: &str) -> (message:
    Message)
    ensures
        exists|sorted: Seq<CommandInfo>|
            in_order(sorted) && sorted.to_multiset() == commands@.to_multiset() && message@ == (
            MessageView {
                embed: Some(
                    EmbedView {
                        author: Some(bot.author_spec()),
                        color: Some(BOT_COLOR),
                        description: Some(help_text(sorted, start@, end@)),
                        title: Some("Command List"@),
                        ..blank_embed()
                    },
                ),
                buttons: Seq::empty(),
                ephemeral: true,
            }),
{
    let mut description = String::from_str(start);
    let sorted = sort_by_name(commands);
    if sorted.len() == 0 {
        description.append("\n*No global commands found...*\n");
    } else {
        let mut i: usize = 0;
        let ghost opening = description@;
        assert(opening + listing(sorted@, 0) == opening);
        while i < sorted.len()
            invariant
                i <= sorted.len(),
                description@ == opening + listing(sorted@, i as int),
            decreases sorted.len() - i,
        {
            let ghost held = description@;
            description.append("\n</");
            description.append(sorted[i].name.as_str());
            description.append(":");
            description.append(decimal(sorted[i].id).as_str());
            description.append("> - ");
            description.append(sorted[i].description.as_str());
            proof {
                reveal_strlit(":");
                assert(":"@ =~= seq![':']);
                assert(description@ =~= opening + listing(sorted@, i + 1));
            }
            i += 1;
        }
        let ghost listed = description@;
        description.append("\n");
        proof {
            reveal_strlit("\n");
            assert("\n"@ =~= seq!['\n']);
        }
    }
    description.append(end);
    let embed = Embed::new().author(bot.as_author()).color(BOT_COLOR).description(
        description.as_str(),
    ).title("Command List");
    Message::new().embed(embed).ephemeral(true)
}

} // verus!
