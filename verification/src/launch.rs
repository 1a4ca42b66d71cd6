//! The command that starts the managed player process. It is configured as a
//! program and its arguments, in which `{name}` stands for the player's name
//! and `{server}` for the address of the media server.
use crate::lms::request::texts;
use crate::text::{occurs_in, replaced, str_contains, str_replace};
use vstd::prelude::*;
use vstd::string::*;

verus! {

/// Why the player process was not started.
#[derive(Debug)]
pub enum LaunchError {
    /// No program is configured.
    NoCommand,
    /// No argument holds `{name}`.
    MissingName,
    /// No argument holds `{server}`.
    MissingServer,
    /// The program could not be started.
    Spawn { cause: String },
}

/// The mathematical value of a [`LaunchError`].
pub enum LaunchErrorView {
    NoCommand,
    MissingName,
    MissingServer,
    Spawn { cause: Seq<char> },
}

impl View for LaunchError {
    type V = LaunchErrorView;

    open spec fn view(&self) -> LaunchErrorView {
        match self {
            LaunchError::NoCommand => LaunchErrorView::NoCommand,
            LaunchError::MissingName => LaunchErrorView::MissingName,
            LaunchError::MissingServer => LaunchErrorView::MissingServer,
            LaunchError::Spawn { cause } => LaunchErrorView::Spawn { cause: cause@ },
        }
    }
}

/// A program and the arguments to start it with.
#[derive(Debug)]
pub struct PlayerCommand {
    pub program: String,
    pub arguments: Vec<String>,
}

/// The mathematical value of a [`PlayerCommand`].
pub struct PlayerCommandView {
    pub program: Seq<char>,
    pub arguments: Seq<Seq<char>>,
}

impl View for PlayerCommand {
    type V = PlayerCommandView;

    open spec fn view(&self) -> PlayerCommandView {
        PlayerCommandView { program: self.program@, arguments: texts(self.arguments@) }
    }
}

/// True when one of `arguments` holds `placeholder`.
pub open spec fn mentions(arguments: Seq<Seq<char>>, placeholder: Seq<char>) -> bool {
    exists|i: int| 0 <= i < arguments.len() && occurs_in(placeholder, #[trigger] arguments[i])
}

/// `argument` with the player's name in place of `{name}` and, in what this
/// gives, the server's address in place of `{server}`.
pub open spec fn substituted(
    argument: Seq<char>,
    player_name: Seq<char>,
    server: Seq<char>,
) -> Seq<char> {
    replaced(replaced(argument, "{name}"@, player_name), "{server}"@, server)
}

/// The command that a command line stands for. The first word is the program.
/// Among the others, both placeholders must occur, and each word is taken with
/// the placeholders filled in.
pub open spec fn command_of(
    command_line: Seq<Seq<char>>,
    player_name: Seq<char>,
    server: Seq<char>,
) -> Result<PlayerCommandView, LaunchErrorView> {
    if command_line.len() == 0 {
        Err(LaunchErrorView::NoCommand)
    } else if !mentions(command_line.skip(1), "{name}"@) {
        Err(LaunchErrorView::MissingName)
    } else if !mentions(command_line.skip(1), "{server}"@) {
        Err(LaunchErrorView::MissingServer)
    } else {
        Ok(
            PlayerCommandView {
                program: command_line[0],
                arguments: command_line.skip(1).map_values(
                    |argument: Seq<char>| substituted(argument, player_name, server),
                ),
            },
        )
    }
}

/// Tells whether one of the words of `command_line`, the first aside, holds
/// `placeholder`.
fn any_argument_holds(command_line: &Vec<String>, placeholder: &str) -> (r: bool)
    requires
        command_line.len() > 0,
    ensures
        r == mentions(texts(command_line@).skip(1), placeholder@),
{
    let ghost arguments = texts(command_line@).skip(1);
    let mut i: usize = 1;
    while i < command_line.len()
        invariant
            1 <= i <= command_line.len(),
            arguments == texts(command_line@).skip(1),
            forall|j: int| 0 <= j < i - 1 ==> !occurs_in(placeholder@, #[trigger] arguments[j]),
        decreases command_line.len() - i,
    {
        assert(arguments[i - 1] == command_line@[i as int]@);
        if str_contains(command_line[i].as_str(), placeholder) {
            return true;
        }
        i += 1;
    }
    false
}

/// Works out the command that starts the player process: the command line
/// must name a program and hold both placeholders, and the player's name and
/// the server's address are filled in. A word without a placeholder is taken
/// as it is.
pub fn player_command(command_line: &Vec<String>, player_name: &str, server: &str) -> (r: Result<
    PlayerCommand,
    LaunchError,
>)
    ensures
        match r {
            Ok(command) => command_of(texts(command_line@), player_name@, server@) == Ok::<
                _,
                LaunchErrorView,
            >(command@),
            Err(e) => command_of(texts(command_line@), player_name@, server@) == Err::<
                PlayerCommandView,
                _,
            >(e@),
        },
        r matches Ok(command) ==> forall|i: int|
            0 <= i < command.arguments.len() && !occurs_in(
                "{name}"@,
                #[trigger] texts(command_line@)[i + 1],
            ) && !occurs_in("{server}"@, texts(command_line@)[i + 1]) ==> command.arguments[i]@
                == texts(command_line@)[i + 1],
{
    if command_line.len() == 0 {
        return Err(LaunchError::NoCommand);
    }
    if !any_argument_holds(command_line, "{name}") {
        return Err(LaunchError::MissingName);
    }
    if !any_argument_holds(command_line, "{server}") {
        return Err(LaunchError::MissingServer);
    }
    let ghost words = texts(command_line@);
    let mut arguments: Vec<String> = Vec::new();
    let mut i: usize = 1;
    while i < command_line.len()
        invariant
            1 <= i <= command_line.len(),
            words == texts(command_line@),
            arguments.len() == i - 1,
            forall|j: int|
                0 <= j < i - 1 ==> (#[trigger] arguments@[j])@ == substituted(
                    words[j + 1],
                    player_name@,
                    server@,
                ),
            forall|j: int|
                0 <= j < i - 1 && !occurs_in("{name}"@, #[trigger] words[j + 1]) && !occurs_in(
                    "{server}"@,
                    words[j + 1],
                ) ==> arguments@[j]@ == words[j + 1],
        decreases command_line.len() - i,
    {
        let with_name = str_replace(command_line[i].as_str(), "{name}", player_name);
        let with_both = str_replace(with_name.as_str(), "{server}", server);
        arguments.push(with_both);
        i += 1;
    }
    let command = PlayerCommand { program: command_line[0].clone(), arguments };
    assert(command@.arguments =~= words.skip(1).map_values(
        |argument: Seq<char>| substituted(argument, player_name@, server@),
    ));
    Ok(command)
}

} // verus!
