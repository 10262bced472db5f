//! The questions that are asked before a game, and what the answers mean.
//! An answer is a line as `read_string` returns it.

use crate::text::{is_word, number_of, parse_u16};
use vstd::prelude::*;

verus! {

/// The port that a host listens on unless the user names another.
pub const DEFAULT_PORT: u16 = 22222;

/// How the program takes part in a game.
#[derive(Debug, Copy, Clone, PartialEq, Eq, Structural)]
pub enum GameMode {
    /// Both players sit at this program.
    Local,
    /// This program runs the session and seats the first player.
    OnlineHost,
    /// This program seats the second player of a session elsewhere.
    OnlineJoin,
}

/// A question about the game mode.
#[derive(Debug, Copy, Clone, PartialEq, Eq, Structural)]
pub enum Question {
    /// Local or online?
    Mode,
    /// Host or join?
    Role,
}

/// What an answer to a question about the game mode leads to.
#[derive(Debug, Copy, Clone, PartialEq, Eq, Structural)]
pub enum Selection {
    /// The mode is chosen.
    Chosen { mode: GameMode },
    /// Another question is to be asked.
    Ask { question: Question },
    /// The answer is none of those asked for: the user is told so, and the
    /// first question is asked again.
    Invalid,
}

/// A question about the port of a host.
#[derive(Debug, Copy, Clone, PartialEq, Eq, Structural)]
pub enum PortQuestion {
    /// Does the user want to name a port?
    Whether,
    /// Which port?
    Number,
}

/// What an answer to a question about the port leads to. After an answer
/// that is turned down the user is told so, and the next answer is taken
/// for the first question again.
#[derive(Debug, Copy, Clone, PartialEq, Eq, Structural)]
pub enum PortSelection {
    /// The port is chosen.
    Chosen { port: u16 },
    /// The user is to be asked for the number.
    AskNumber,
    /// The answer is neither yes nor no.
    InvalidOption,
    /// The answer is no number of a port.
    InvalidNumber,
}

/// What `answer` to `question` leads to.
pub open spec fn selection_of(question: Question, answer: Seq<char>) -> Selection {
    match question {
        Question::Mode => if answer == "local"@ {
            Selection::Chosen { mode: GameMode::Local }
        } else if answer == "online"@ {
            Selection::Ask { question: Question::Role }
        } else {
            Selection::Invalid
        },
        Question::Role => if answer == "host"@ {
            Selection::Chosen { mode: GameMode::OnlineHost }
        } else if answer == "join"@ {
            Selection::Chosen { mode: GameMode::OnlineJoin }
        } else {
            Selection::Invalid
        },
    }
}

/// Whether `answer` declines to name a port: nothing, `n` or `no`.
pub open spec fn declines(answer: Seq<char>) -> bool {
    answer == ""@ || answer == "n"@ || answer == "no"@
}

/// Whether `answer` agrees to name a port: `y` or `yes`.
pub open spec fn agrees(answer: Seq<char>) -> bool {
    answer == "y"@ || answer == "yes"@
}

/// What `answer` to `question` leads to. Who declines gets the default
/// port.
pub open spec fn port_selection_of(question: PortQuestion, answer: Seq<char>) -> PortSelection {
    match question {
        PortQuestion::Whether => if declines(answer) {
            PortSelection::Chosen { port: DEFAULT_PORT }
        } else if agrees(answer) {
            PortSelection::AskNumber
        } else {
            PortSelection::InvalidOption
        },
        PortQuestion::Number => match number_of(answer, u16::MAX as nat) {
            Some(port) => PortSelection::Chosen { port: port as u16 },
            None => PortSelection::InvalidNumber,
        },
    }
}

impl Question {
    /// The question in words.
    pub open spec fn text_of(self) -> Seq<char> {
        match self {
            Question::Mode => "Please select your game mode; local or online."@,
            Question::Role => "Do you want to host or join a game?"@,
        }
    }

    /// The question in words.
    pub fn text(&self) -> (text: String)
        ensures
            text@ == self.text_of(),
    {
        match self {
            Question::Mode => String::from_str("Please select your game mode; local or online."),
            Question::Role => String::from_str("Do you want to host or join a game?"),
        }
    }
}

impl PortQuestion {
    /// The question in words.
    pub open spec fn text_of(self) -> Seq<char> {
        match self {
            PortQuestion::Whether => "Do you wish to specify a port to bind to (the default is 22222) y/N?"@,
            PortQuestion::Number => "Please provide the port:"@,
        }
    }

    /// The question in words.
    pub fn text(&self) -> (text: String)
        ensures
            text@ == self.text_of(),
    {
        match self {
            PortQuestion::Whether => String::from_str(
                "Do you wish to specify a port to bind to (the default is 22222) y/N?",
            ),
            PortQuestion::Number => String::from_str("Please provide the port:"),
        }
    }
}

impl Selection {
    /// What the user is told about an answer that is turned down.
    pub fn invalid_text() -> (text: String)
        ensures
            text@ == "That is not a valid option, please try again!"@,
    {
        String::from_str("That is not a valid option, please try again!")
    }
}

impl PortSelection {
    /// What the user is told about the answer, where it is turned down.
    pub open spec fn text_of(self) -> Option<Seq<char>> {
        match self {
            PortSelection::InvalidOption => Some("That is not a valid option, please try again!"@),
            PortSelection::InvalidNumber => Some("That is not a valid number, try again."@),
            _ => None,
        }
    }

    /// What the user is told about the answer, where it is turned down.
    pub fn text(&self) -> (text: Option<String>)
        ensures
            match text {
                Some(t) => self.text_of() == Some(t@),
                None => self.text_of() is None,
            },
    {
        match self {
            PortSelection::InvalidOption => Some(
                String::from_str("That is not a valid option, please try again!"),
            ),
            PortSelection::InvalidNumber => Some(
                String::from_str("That is not a valid number, try again."),
            ),
            _ => None,
        }
    }
}

/// What `answer` to `question` leads to.
pub fn get_game_mode(question: Question, answer: &str) -> (selection: Selection)
    ensures
        selection == selection_of(question, answer@),
{
    match question {
        Question::Mode => if is_word(answer, "local") {
            Selection::Chosen { mode: GameMode::Local }
        } else if is_word(answer, "online") {
            Selection::Ask { question: Question::Role }
        } else {
            Selection::Invalid
        },
        Question::Role => if is_word(answer, "host") {
            Selection::Chosen { mode: GameMode::OnlineHost }
        } else if is_word(answer, "join") {
            Selection::Chosen { mode: GameMode::OnlineJoin }
        } else {
            Selection::Invalid
        },
    }
}

/// What `answer` to `question` leads to.
pub fn get_port(question: PortQuestion, answer: &str) -> (selection: PortSelection)
    ensures
        selection == port_selection_of(question, answer@),
{
    match question {
        PortQuestion::Whether => if is_word(answer, "") || is_word(answer, "n") || is_word(
            answer,
            "no",
        ) {
            PortSelection::Chosen { port: DEFAULT_PORT }
        } else if is_word(answer, "y") || is_word(answer, "yes") {
            PortSelection::AskNumber
        } else {
            PortSelection::InvalidOption
        },
        PortQuestion::Number => match parse_u16(answer) {
            Some(port) => PortSelection::Chosen { port },
            None => PortSelection::InvalidNumber,
        },
    }
}

} // verus!
