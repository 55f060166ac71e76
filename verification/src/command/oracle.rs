//! The command that answers any question, at random.

use vstd::prelude::*;
use vstd::string::*;

use crate::command::get_str;
use crate::command::str_option;
use crate::utility::chance::random_index;
use crate::utility::platform::blank_embed;
use crate::utility::platform::CommandOptionType;
use crate::utility::platform::CommandSchema;
use crate::utility::platform::Embed;
use crate::utility::platform::EmbedAuthor;
use crate::utility::platform::EmbedAuthorView;
use crate::utility::platform::EmbedView;
use crate::utility::platform::Message;
use crate::utility::platform::MessageView;
use crate::utility::platform::OptionSchema;
use crate::utility::platform::KERBAL;
use crate::utility::platform::LIGHT_GREY;
use crate::utility::platform::RED;
use crate::utility::platform::ResolvedOption;
use crate::utility::platform::SEND_MESSAGES;
use crate::utility::Result;

use crate::utility::traits::AsEmbed;

verus! {

/// The name of the command.
pub const NAME: &'static str = "oracle";

pub const OPTION_QUESTION: &'static str = "question";

/// How many answers the oracle knows.
pub const ANSWER_COUNT: usize = 20;

/// The picture of the oracle.
pub const ORACLE_ICON: &'static str =
    "https://cdn.discordapp.com/attachments/730389830877577267/1044068278479355954/image.png";

/// The tone of an answer.
#[derive(Clone, Copy, Debug, PartialEq, Eq, Structural)]
pub enum Mood {
    Bad,
    Unsure,
    Good,
}

impl Mood {
    /// The colour of answers of this tone, as `0xRRGGBB`.
    pub fn color(self) -> (color: u32)
        ensures
            color == (match self {
                Mood::Bad => RED,
                Mood::Unsure => LIGHT_GREY,
                Mood::Good => KERBAL,
            }),
    {
        match self {
            Mood::Bad => RED,
            Mood::Unsure => LIGHT_GREY,
            Mood::Good => KERBAL,
        }
    }
}

/// An answer of the oracle.
#[derive(Clone, Copy, Debug)]
pub struct Reply {
    pub mood: Mood,
    pub text: &'static str,
}

/// The answer at position `index` of the oracle's list: ten favourable
/// ones, five evasive ones, five unfavourable ones.
pub open spec fn answer_spec(index: int) -> Reply {
    if index == 0 {
        Reply { mood: Mood::Good, text: "It is certain." }
    } else if index == 1 {
        Reply { mood: Mood::Good, text: "It is decidedly so." }
    } else if index == 2 {
        Reply { mood: Mood::Good, text: "Without a doubt." }
    } else if index == 3 {
        Reply { mood: Mood::Good, text: "Yes, definitely." }
    } else if index == 4 {
        Reply { mood: Mood::Good, text: "You may rely on it." }
    } else if index == 5 {
        Reply { mood: Mood::Good, text: "As I see it, yes." }
    } else if index == 6 {
        Reply { mood: Mood::Good, text: "Most likely." }
    } else if index == 7 {
        Reply { mood: Mood::Good, text: "Outlook good." }
    } else if index == 8 {
        Reply { mood: Mood::Good, text: "Yes." }
    } else if index == 9 {
        Reply { mood: Mood::Good, text: "Signs point to yes." }
    } else if index == 10 {
        Reply { mood: Mood::Unsure, text: "Reply hazy, try again." }
    } else if index == 11 {
        Reply { mood: Mood::Unsure, text: "Ask again later." }
    } else if index == 12 {
        Reply { mood: Mood::Unsure, text: "Better not tell you now." }
    } else if index == 13 {
        Reply { mood: Mood::Unsure, text: "Cannot predict now." }
    } else if index == 14 {
        Reply { mood: Mood::Unsure, text: "Concentrate and ask again." }
    } else if index == 15 {
        Reply { mood: Mood::Bad, text: "Don't count on it." }
    } else if index == 16 {
        Reply { mood: Mood::Bad, text: "My reply is no." }
    } else if index == 17 {
        Reply { mood: Mood::Bad, text: "My sources say no." }
    } else if index == 18 {
        Reply { mood: Mood::Bad, text: "Outlook not so good." }
    } else {
        Reply { mood: Mood::Bad, text: "Very doubtful." }
    }
}

/// The answer at position `index` of the oracle's list.
pub fn answer(index: usize) -> (reply: Reply)
    requires
        index < ANSWER_COUNT,
    ensures
        reply == answer_spec(index as int),
{
    match index {
        0 => Reply::new(Mood::Good, "It is certain."),
        1 => Reply::new(Mood::Good, "It is decidedly so."),
        2 => Reply::new(Mood::Good, "Without a doubt."),
        3 => Reply::new(Mood::Good, "Yes, definitely."),
        4 => Reply::new(Mood::Good, "You may rely on it."),
        5 => Reply::new(Mood::Good, "As I see it, yes."),
        6 => Reply::new(Mood::Good, "Most likely."),
        7 => Reply::new(Mood::Good, "Outlook good."),
        8 => Reply::new(Mood::Good, "Yes."),
        9 => Reply::new(Mood::Good, "Signs point to yes."),
        10 => Reply::new(Mood::Unsure, "Reply hazy, try again."),
        11 => Reply::new(Mood::Unsure, "Ask again later."),
        12 => Reply::new(Mood::Unsure, "Better not tell you now."),
        13 => Reply::new(Mood::Unsure, "Cannot predict now."),
        14 => Reply::new(Mood::Unsure, "Concentrate and ask again."),
        15 => Reply::new(Mood::Bad, "Don't count on it."),
        16 => Reply::new(Mood::Bad, "My reply is no."),
        17 => Reply::new(Mood::Bad, "My sources say no."),
        18 => Reply::new(Mood::Bad, "Outlook not so good."),
        _ => Reply::new(Mood::Bad, "Very doubtful."),
    }
}

impl Reply {
    /// An answer of the given tone.
    pub fn new(mood: Mood, text: &'static str) -> (reply: Self)
        ensures
            reply == (Reply { mood, text }),
    {
        Reply { mood, text }
    }

    /// The card of the answer to `question`, which `name` asked.
    pub open spec fn embed(self, name: Seq<char>, question: Seq<char>) -> EmbedView {
        EmbedView {
            author: Some(
                EmbedAuthorView { name: "The Oracle"@, icon_url: Some(ORACLE_ICON@), url: None },
            ),
            color: Some(
                match self.mood {
                    Mood::Bad => RED,
                    Mood::Unsure => LIGHT_GREY,
                    Mood::Good => KERBAL,
                },
            ),
            description: Some(
                "**"@ + name + " asked...**\n> "@ + question + "\n\n*"@ + self.text@ + "*"@,
            ),
            ..blank_embed()
        }
    }

}

/// The command as it is registered.
pub fn new() -> (command: CommandSchema)
    ensures
        command.name@ == NAME@,
        command.description@ == "Asks the Oracle a question"@,
        command.default_member_permissions == SEND_MESSAGES,
        !command.dm_permission,
        command.option_names() == seq![OPTION_QUESTION@],
{
    let command = CommandSchema::new(NAME).default_member_permissions(SEND_MESSAGES).description(
        "Asks the Oracle a question",
    ).dm_permission(false).add_option(
        OptionSchema::new(
            CommandOptionType::String,
            OPTION_QUESTION,
            "What would you like to ask?",
        ).max_length(512).required(true),
    );
    assert(command.option_names() == seq![OPTION_QUESTION@]);
    command
}

/// What the command comes to when the oracle picks the answer at position
/// `index`: the question is required; the reply is the card of that
/// answer.
pub open spec fn answered(o: Seq<ResolvedOption>, name: Seq<char>, index: int, r: Result<Message>) -> bool {
    match str_option(o, OPTION_QUESTION@) {
        Err(e) => r matches Err(got) && got@ == e,
        Ok(question) => r matches Ok(message) && message@ == (MessageView {
            embed: Some(answer_spec(index).embed(name, question)),
            buttons: Seq::empty(),
            ephemeral: false,
        }),
    }
}

/// Decides what the command comes to when the oracle picks the answer at
/// position `index`. `name` is the tag of the user who asks.
pub fn run_command_with(o: &[ResolvedOption], name: &str, index: usize) -> (r: Result<Message>)
    requires
        index < ANSWER_COUNT,
    ensures
        answered(o@, name@, index as int, r),
{
    let question = get_str(o, OPTION_QUESTION)?;
    let embed = answer(index).as_embed((name, question));
    Ok(Message::new().embed(embed))
}

/// Decides what the command comes to: the oracle picks one of its answers
/// at random.
pub fn run_command(o: &[ResolvedOption], name: &str) -> (r: Result<Message>)
    ensures
        exists|index: int| 0 <= index < ANSWER_COUNT && answered(o@, name@, index, r),
{
    let question = match get_str(o, OPTION_QUESTION) {
        Ok(question) => question,
        Err(e) => {
            assert(answered(o@, name@, 0, Err(e)));
            return Err(e);
        },
    };
    let index = random_index(ANSWER_COUNT);
    let embed = answer(index).as_embed((name, question));
    let message = Message::new().embed(embed);
    assert(answered(o@, name@, index as int, Ok(message)));
    Ok(message)
}

impl<'a> AsEmbed<(&'a str, &'a str)> for Reply {
    open spec fn embed_view(&self, args: (&'a str, &'a str)) -> EmbedView {
        self.embed(args.0@, args.1@)
    }

    /// The card of the answer: who asked what, and what the oracle says,
    /// in the colour of the answer's tone.
    fn as_embed(&self, args: (&'a str, &'a str)) -> (embed: Embed) {
        let name = args.0;
        let question = args.1;
        let author = EmbedAuthor::new("The Oracle").icon_url(ORACLE_ICON);
        let mut description = String::from_str("**");
        description.append(name);
        description.append(" asked...**\n> ");
        description.append(question);
        description.append("\n\n*");
        description.append(self.text);
        description.append("*");
        Embed::new().author(author).color(self.mood.color()).description(description.as_str())
    }
}

} // verus!
