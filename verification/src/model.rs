//! Data model of the relay: colours, classified statements, and the user
//! identity a session carries while it is active.

use vstd::prelude::*;
use crate::render::{prefix_text, prompt_text, message_text, paint, plain_prefix_string};

verus! {

/// The six display colours of the fixed colour table, in table order.
#[derive(Debug, Clone, Copy, PartialEq, Eq, Structural)]
pub enum Color {
    Red,
    Green,
    Blue,
    Yellow,
    Cyan,
    Purple,
}

impl Color {
    /// The position of the colour in the six-entry table.
    pub open spec fn table_index(self) -> int {
        match self {
            Color::Red => 0,
            Color::Green => 1,
            Color::Blue => 2,
            Color::Yellow => 3,
            Color::Cyan => 4,
            Color::Purple => 5,
        }
    }

    /// The colour at position `i` of the six-entry table.
    pub fn from_index(i: usize) -> (c: Color)
        requires
            i < 6,
        ensures
            c.table_index() == i,
    {
        if i == 0 {
            Color::Red
        } else if i == 1 {
            Color::Green
        } else if i == 2 {
            Color::Blue
        } else if i == 3 {
            Color::Yellow
        } else if i == 4 {
            Color::Cyan
        } else {
            Color::Purple
        }
    }
}

/// The commands a client can type after a `/`.
#[derive(Debug, Clone, PartialEq, Eq)]
pub enum CommandType {
    /// `/quit`: end the session.
    Quit,
    /// `/color <name>`: change the display colour to the named one.
    ChangeColor(String),
    /// Anything else starting with `/`, or `/color` without an argument.
    Invalid,
}

/// The classified form of one line of client input.
#[derive(Debug, Clone, PartialEq, Eq)]
pub enum Statement {
    /// A line starting with `/`, classified as a command.
    Command(CommandType),
    /// Ordinary chat text, kept verbatim.
    Message(String),
    /// A line that is empty once its terminator is stripped.
    EmptyStatement,
}

/// Mathematical counterpart of [`CommandType`].
pub enum SpecCommand {
    Quit,
    ChangeColor(Seq<char>),
    Invalid,
}

/// Mathematical counterpart of [`Statement`].
pub enum SpecStatement {
    Command(SpecCommand),
    Message(Seq<char>),
    EmptyStatement,
}

impl View for CommandType {
    type V = SpecCommand;

    open spec fn view(&self) -> SpecCommand {
        match self {
            CommandType::Quit => SpecCommand::Quit,
            CommandType::ChangeColor(name) => SpecCommand::ChangeColor(name@),
            CommandType::Invalid => SpecCommand::Invalid,
        }
    }
}

impl View for Statement {
    type V = SpecStatement;

    open spec fn view(&self) -> SpecStatement {
        match self {
            Statement::Command(c) => SpecStatement::Command(c@),
            Statement::Message(m) => SpecStatement::Message(m@),
            Statement::EmptyStatement => SpecStatement::EmptyStatement,
        }
    }
}

/// Mathematical view of a [`User`].
pub struct UserView {
    pub name: Seq<char>,
    pub color: Color,
    pub id: u64,
}

/// A valid user: the name is non-empty and does not start with `/`.
pub open spec fn user_wf(u: UserView) -> bool {
    u.name.len() > 0 && u.name[0] != '/'
}

/// The identity of one active session: its display name, fixed at login,
/// its current colour, and the id under which it publishes on the bus.
#[derive(Debug, Clone, PartialEq, Eq)]
pub struct User {
    pub name: String,
    pub color: Color,
    pub id: u64,
}

impl View for User {
    type V = UserView;

    open spec fn view(&self) -> UserView {
        UserView { name: self.name@, color: self.color, id: self.id }
    }
}

/// Relies on rand's `Rng::gen_range`: a sample drawn from `0..6` lies in
/// that range (the call panics only on an empty range, and `0..6` is not).
#[verifier::external_body]
fn random_color_index() -> (i: usize)
    ensures
        i < 6,
{
    rand::Rng::gen_range(&mut rand::thread_rng(), 0..6usize)
}

impl User {
    /// The identity of a freshly named session: the given name and id, and
    /// a colour drawn at random from the six-entry table.
    pub fn new(name: String, id: u64) -> (u: User)
        requires
            name@.len() > 0,
            name@[0] != '/',
        ensures
            u@.name == name@,
            u@.id == id,
            user_wf(u@),
    {
        let idx = random_color_index();
        let color = Color::from_index(idx);
        User { name, color, id }
    }

    /// `\r[<name>]`, painted in the session's current colour.
    pub fn get_name_prefix(&self) -> (r: String)
        ensures
            r@ == prefix_text(self.color, self.name@),
    {
        let plain = plain_prefix_string(self.name.as_str());
        paint(self.color, plain.as_str())
    }

    /// The session's prompt: the painted prefix followed by `: `.
    pub fn get_prompt(&self) -> (r: String)
        ensures
            r@ == prompt_text(self.color, self.name@),
    {
        self.get_name_prefix().concat(": ")
    }

    /// The rendering of an outgoing chat message: the prompt followed by
    /// the message text.
    pub fn format_message(&self, msg: String) -> (r: String)
        ensures
            r@ == message_text(self.color, self.name@, msg@),
    {
        self.get_prompt().concat(msg.as_str())
    }
}

} // verus!
