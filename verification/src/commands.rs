//! The commands of the chat.

use crate::text;
use crate::text::{same_text, split_first_word, starts_with, trim};
use vstd::prelude::*;
use vstd::string::*;

verus! {

/// What a message of the chat asks for.
#[derive(Debug, Clone, PartialEq, Eq)]
pub enum BotCommand {
    Start,
    New,
    Use(String),
    Cwd(Option<String>),
    Status,
    Stop,
    Approve { for_session: bool },
    Deny,
    Prompt(String),
    Invalid(String),
}

/// A command as mathematics.
pub enum BotCommandView {
    Start,
    New,
    Use(Seq<char>),
    Cwd(Option<Seq<char>>),
    Status,
    Stop,
    Approve { for_session: bool },
    Deny,
    Prompt(Seq<char>),
    Invalid(Seq<char>),
}

impl View for BotCommand {
    type V = BotCommandView;

    open spec fn view(&self) -> BotCommandView {
        match self {
            BotCommand::Start => BotCommandView::Start,
            BotCommand::New => BotCommandView::New,
            BotCommand::Use(thread_id) => BotCommandView::Use(thread_id@),
            BotCommand::Cwd(None) => BotCommandView::Cwd(None),
            BotCommand::Cwd(Some(argument)) => BotCommandView::Cwd(Some(argument@)),
            BotCommand::Status => BotCommandView::Status,
            BotCommand::Stop => BotCommandView::Stop,
            BotCommand::Approve { for_session } => BotCommandView::Approve {
                for_session: *for_session,
            },
            BotCommand::Deny => BotCommandView::Deny,
            BotCommand::Prompt(prompt) => BotCommandView::Prompt(prompt@),
            BotCommand::Invalid(help) => BotCommandView::Invalid(help@),
        }
    }
}

/// The text that answers an invalid command.
pub open spec fn help_text() -> Seq<char> {
    "/new\n/use <thread_id>\n/status\n/stop"@
}

/// The command with the name `name` and the argument `rest`, which is empty or trimmed.
pub open spec fn named_command(name: Seq<char>, rest: Seq<char>) -> BotCommandView {
    if name == "/start"@ {
        BotCommandView::Start
    } else if name == "/new"@ {
        BotCommandView::New
    } else if name == "/status"@ {
        BotCommandView::Status
    } else if name == "/stop"@ {
        BotCommandView::Stop
    } else if name == "/deny"@ {
        BotCommandView::Deny
    } else if name == "/use"@ && rest.len() > 0 {
        BotCommandView::Use(rest)
    } else if name == "/cwd"@ {
        BotCommandView::Cwd(
            if rest.len() == 0 {
                None
            } else {
                Some(rest)
            },
        )
    } else if name == "/approve"@ && rest.len() == 0 {
        BotCommandView::Approve { for_session: false }
    } else if name == "/approve"@ && rest == "session"@ {
        BotCommandView::Approve { for_session: true }
    } else {
        BotCommandView::Invalid(help_text())
    }
}

/// The command that `input` asks for: text that begins with a slash names one, any other text is
/// a prompt.
pub open spec fn command_of(input: Seq<char>) -> BotCommandView {
    let line = text::trimmed(input);
    if line.len() > 0 && line[0] == '/' {
        named_command(text::first_word(line), text::trimmed(text::after_first_word(line)))
    } else {
        BotCommandView::Prompt(line)
    }
}

impl BotCommand {
    /// Reads a message.
    pub fn parse(input: &str) -> (command: BotCommand)
        ensures
            command@ == command_of(input@),
    {
        let line = trim(input);
        proof {
            reveal_strlit("/");
            assert("/"@ =~= seq!['/']);
            assert(text::occurs_at(line@, "/"@, 0) == (line@.len() > 0 && line@[0] == '/')) by {
                if line@.len() > 0 {
                    assert(line@.subrange(0, 1) =~= seq![line@[0]]);
                    if line@[0] != '/' {
                        assert(seq![line@[0]][0] != seq!['/'][0]);
                    }
                }
            }
        }
        if !starts_with(line, "/") {
            return BotCommand::Prompt(line.to_owned());
        }
        let (name, tail) = split_first_word(line);
        let rest = trim(tail);
        if same_text(name, "/start") {
            BotCommand::Start
        } else if same_text(name, "/new") {
            BotCommand::New
        } else if same_text(name, "/status") {
            BotCommand::Status
        } else if same_text(name, "/stop") {
            BotCommand::Stop
        } else if same_text(name, "/deny") {
            BotCommand::Deny
        } else if same_text(name, "/use") && !rest.is_empty() {
            BotCommand::Use(rest.to_owned())
        } else if same_text(name, "/cwd") {
            if rest.is_empty() {
                BotCommand::Cwd(None)
            } else {
                BotCommand::Cwd(Some(rest.to_owned()))
            }
        } else if same_text(name, "/approve") && rest.is_empty() {
            BotCommand::Approve { for_session: false }
        } else if same_text(name, "/approve") && same_text(rest, "session") {
            BotCommand::Approve { for_session: true }
        } else {
            BotCommand::Invalid(BotCommand::help())
        }
    }

    /// The text that answers an invalid command.
    pub fn help() -> (text: String)
        ensures
            text@ == help_text(),
    {
        "/new\n/use <thread_id>\n/status\n/stop".to_owned()
    }
}

/// White space around a message does not matter.
pub proof fn law_surrounding_space_does_not_matter(input: Seq<char>)
    ensures
        command_of(text::trimmed(input)) == command_of(input),
{
    text::law_trimmed_is_tight(input);
    text::law_tight_text_stays(text::trimmed(input));
}

/// Text that does not begin with a slash is a prompt, as it is but for the white space around it.
pub proof fn law_plain_text_is_a_prompt(input: Seq<char>)
    requires
        text::trimmed(input).len() > 0 ==> text::trimmed(input)[0] != '/',
    ensures
        command_of(input) == BotCommandView::Prompt(text::trimmed(input)),
{
}

/// A name, a space and an argument ask for the command with this name and this argument.
pub proof fn law_name_and_argument(name: Seq<char>, argument: Seq<char>)
    requires
        name.len() > 0,
        name[0] == '/',
        forall|i: int| 0 <= i < name.len() ==> !text::is_white(#[trigger] name[i]),
        argument.len() > 0,
        text::is_tight(argument),
    ensures
        command_of(name + seq![' '] + argument) == named_command(name, argument),
{
    let line = name + seq![' '] + argument;
    assert(line.first() == name[0]);
    assert(line.last() == argument.last());
    text::law_tight_text_stays(line);
    text::law_tight_text_stays(argument);
    let stop = |c: char| text::is_white(c);
    assert forall|i: int| 0 <= i < name.len() implies !#[trigger] stop(line[i]) by {
        assert(line[i] == name[i]);
    }
    assert(line[name.len() as int] == ' ');
    text::lemma_length_before(line, stop, name.len());
    assert(text::first_word(line) =~= name);
    assert(text::after_first_word(line) =~= argument);
}

/// A name alone asks for the command with this name and no argument.
pub proof fn law_name_alone(name: Seq<char>)
    requires
        name.len() > 0,
        name[0] == '/',
        forall|i: int| 0 <= i < name.len() ==> !text::is_white(#[trigger] name[i]),
    ensures
        command_of(name) == named_command(name, Seq::empty()),
{
    text::law_tight_text_stays(name);
    let stop = |c: char| text::is_white(c);
    text::lemma_length_before(name, stop, name.len());
    assert(text::first_word(name) =~= name);
    assert(text::trimmed(Seq::empty()) =~= Seq::empty());
}

/// `/use` with an argument switches to the thread that the argument names.
pub proof fn law_use_names_the_thread(thread_id: Seq<char>)
    requires
        thread_id.len() > 0,
        text::is_tight(thread_id),
    ensures
        command_of("/use "@ + thread_id) == BotCommandView::Use(thread_id),
{
    lemma_command_names();
    reveal_strlit("/use");
    reveal_strlit("/use ");
    assert("/use "@ =~= "/use"@ + seq![' ']);
    law_name_and_argument("/use"@, thread_id);
}

/// `/cwd` with an argument leads where the argument says.
pub proof fn law_cwd_names_the_place(place: Seq<char>)
    requires
        place.len() > 0,
        text::is_tight(place),
    ensures
        command_of("/cwd "@ + place) == BotCommandView::Cwd(Some(place)),
{
    lemma_command_names();
    reveal_strlit("/cwd");
    reveal_strlit("/cwd ");
    assert("/cwd "@ =~= "/cwd"@ + seq![' ']);
    law_name_and_argument("/cwd"@, place);
}

proof fn lemma_command_names()
    ensures
        "/use"@ != "/start"@,
        "/use"@ != "/new"@,
        "/use"@ != "/status"@,
        "/use"@ != "/stop"@,
        "/use"@ != "/deny"@,
        "/cwd"@ != "/start"@,
        "/cwd"@ != "/new"@,
        "/cwd"@ != "/status"@,
        "/cwd"@ != "/stop"@,
        "/cwd"@ != "/deny"@,
        "/cwd"@ != "/use"@,
{
    reveal_strlit("/use");
    reveal_strlit("/cwd");
    reveal_strlit("/start");
    reveal_strlit("/new");
    reveal_strlit("/status");
    reveal_strlit("/stop");
    reveal_strlit("/deny");
    assert("/use"@[1] == 'u' && "/cwd"@[1] == 'c' && "/new"@[1] == 'n');
    assert("/use"@.len() == 4 && "/cwd"@.len() == 4);
    assert("/start"@.len() == 6 && "/status"@.len() == 7 && "/stop"@.len() == 5);
    assert("/deny"@.len() == 5);
}

} // verus!
