//! The session engine: a state machine that turns parsed input and bus
//! traffic into the side effects of one connection.
//!
//! The engine is pure: socket reads, bus receives and the race between
//! them happen outside. Each completed wait is handed in as an [`Event`];
//! [`Session::step`] applies it and returns the [`Action`]s to perform.

use vstd::prelude::*;
use crate::model::{User, UserView, user_wf, CommandType, Statement, SpecCommand, SpecStatement};
use crate::parse::{parse, spec_parse, get_color_from_string, spec_resolve_color,
    lemma_parse_message};
use crate::render::{message_text, prefix_text, prompt_text};

verus! {

/// One message on the broadcast bus: the rendered text, and the id of the
/// session that published it, carried as a structured field so receivers
/// can filter their own traffic without matching on text.
#[derive(Debug, Clone, PartialEq, Eq)]
pub struct Envelope {
    pub sender_id: u64,
    pub text: String,
}

/// Mathematical view of an [`Envelope`].
pub struct EnvelopeView {
    pub sender_id: u64,
    pub text: Seq<char>,
}

impl View for Envelope {
    type V = EnvelopeView;

    open spec fn view(&self) -> EnvelopeView {
        EnvelopeView { sender_id: self.sender_id, text: self.text@ }
    }
}

/// What a session can be woken by: a decoded line from its socket, a
/// failed socket read or decode, or its bus subscription yielding an
/// envelope, a lag notice, or closure.
#[derive(Debug, Clone, PartialEq, Eq)]
pub enum Event {
    /// One raw line (or read chunk) from the socket, already decoded.
    Line(String),
    /// The socket read failed, or its bytes were not valid text.
    ReadFailed,
    /// The bus subscription yielded a message.
    Bus(Envelope),
    /// The subscription lagged and dropped old entries; reported, not fatal.
    BusLagged,
    /// The bus itself has been torn down.
    BusClosed,
}

/// Mathematical view of an [`Event`].
pub enum EventView {
    Line(Seq<char>),
    ReadFailed,
    Bus(EnvelopeView),
    BusLagged,
    BusClosed,
}

impl View for Event {
    type V = EventView;

    open spec fn view(&self) -> EventView {
        match self {
            Event::Line(s) => EventView::Line(s@),
            Event::ReadFailed => EventView::ReadFailed,
            Event::Bus(env) => EventView::Bus(env@),
            Event::BusLagged => EventView::BusLagged,
            Event::BusClosed => EventView::BusClosed,
        }
    }
}

/// A side effect the caller must perform after a step: write text to this
/// session's socket, publish an envelope on the bus, or close the
/// connection and release the subscription.
#[derive(Debug, Clone, PartialEq, Eq)]
pub enum Action {
    WriteSocket(String),
    Publish(Envelope),
    Disconnect,
}

/// Mathematical view of an [`Action`].
pub enum ActionView {
    WriteSocket(Seq<char>),
    Publish(EnvelopeView),
    Disconnect,
}

impl View for Action {
    type V = ActionView;

    open spec fn view(&self) -> ActionView {
        match self {
            Action::WriteSocket(s) => ActionView::WriteSocket(s@),
            Action::Publish(env) => ActionView::Publish(env@),
            Action::Disconnect => ActionView::Disconnect,
        }
    }
}

/// The views of a sequence of actions.
pub open spec fn acts_view(s: Seq<Action>) -> Seq<ActionView> {
    s.map_values(|a: Action| a@)
}

/// The lifecycle of one connection: waiting for a name, chatting, done.
#[derive(Debug)]
pub enum Session {
    /// Entered on accept; the session has an id but no user yet.
    AwaitingName { id: u64 },
    /// Entered on successful name acceptance.
    Active { user: User },
    /// Absorbing: the connection is finished.
    Terminated,
}

/// Mathematical view of a [`Session`].
pub enum SessionView {
    AwaitingName { id: u64 },
    Active { user: UserView },
    Terminated,
}

impl View for Session {
    type V = SessionView;

    open spec fn view(&self) -> SessionView {
        match self {
            Session::AwaitingName { id } => SessionView::AwaitingName { id: *id },
            Session::Active { user } => SessionView::Active { user: user@ },
            Session::Terminated => SessionView::Terminated,
        }
    }
}

/// A well-formed session: while active, the user's name is non-empty and
/// does not start with `/`.
pub open spec fn session_wf(s: SessionView) -> bool {
    s matches SessionView::Active { user } ==> user_wf(user)
}

/// `> <name> has joined the chat`, the notice broadcast on entering
/// `Active`.
pub open spec fn joined_text(name: Seq<char>) -> Seq<char> {
    "> "@ + name + " has joined the chat"@
}

/// `> <name> has left the chat`, the notice broadcast on every path out of
/// `Active`.
pub open spec fn left_text(name: Seq<char>) -> Seq<char> {
    "> "@ + name + " has left the chat"@
}

/// How a received bus message is written to the socket: carriage return,
/// text, line terminator.
pub open spec fn relayed_text(text: Seq<char>) -> Seq<char> {
    "\r"@ + text + "\r\n"@
}

/// The full transition relation of the engine: what one event does to the
/// state, and exactly which actions it emits. The only freedom left open
/// is the colour drawn at random when a user is created.
pub open spec fn spec_step_rel(
    pre: SessionView,
    ev: EventView,
    post: SessionView,
    acts: Seq<ActionView>,
) -> bool {
    match pre {
        SessionView::AwaitingName { id } => match ev {
            EventView::Line(raw) => match spec_parse(raw) {
                SpecStatement::Message(name) => {
                    &&& post matches SessionView::Active { user } && user.name == name
                        && user.id == id
                    &&& acts == seq![
                        ActionView::Publish(EnvelopeView { sender_id: id, text: joined_text(name) }),
                    ]
                },
                SpecStatement::Command(_) => {
                    &&& post is Terminated
                    &&& acts == seq![
                        ActionView::WriteSocket("Name cannot start with '/'\r\n"@),
                        ActionView::Disconnect,
                    ]
                },
                SpecStatement::EmptyStatement => {
                    &&& post is Terminated
                    &&& acts == seq![
                        ActionView::WriteSocket("Name cannot be empty\r\n"@),
                        ActionView::Disconnect,
                    ]
                },
            },
            EventView::ReadFailed => post is Terminated && acts == seq![ActionView::Disconnect],
            _ => post == pre && acts == Seq::<ActionView>::empty(),
        },
        SessionView::Active { user } => match ev {
            EventView::Line(raw) => match spec_parse(raw) {
                SpecStatement::Message(m) => {
                    &&& post == pre
                    &&& acts == seq![
                        ActionView::Publish(EnvelopeView {
                            sender_id: user.id,
                            text: message_text(user.color, user.name, m),
                        }),
                    ]
                },
                SpecStatement::Command(c) => match c {
                    SpecCommand::Quit => {
                        &&& post is Terminated
                        &&& acts == seq![
                            ActionView::Publish(EnvelopeView {
                                sender_id: user.id,
                                text: left_text(user.name),
                            }),
                            ActionView::Disconnect,
                        ]
                    },
                    SpecCommand::ChangeColor(cn) => match spec_resolve_color(cn) {
                        Some(col) => {
                            &&& post == (SessionView::Active {
                                user: UserView { color: col, ..user },
                            })
                            &&& acts == Seq::<ActionView>::empty()
                        },
                        None => {
                            &&& post == pre
                            &&& acts == seq![ActionView::WriteSocket("Invalid color!\r\n"@)]
                        },
                    },
                    SpecCommand::Invalid => {
                        &&& post == pre
                        &&& acts == seq![ActionView::WriteSocket("Invalid command!\r\n"@)]
                    },
                },
                SpecStatement::EmptyStatement => post == pre && acts
                    == Seq::<ActionView>::empty(),
            },
            EventView::Bus(env) => {
                if env.sender_id == user.id {
                    post == pre && acts == Seq::<ActionView>::empty()
                } else {
                    post == pre && acts == seq![ActionView::WriteSocket(relayed_text(env.text))]
                }
            },
            EventView::BusLagged => post == pre && acts == Seq::<ActionView>::empty(),
            EventView::BusClosed | EventView::ReadFailed => {
                &&& post is Terminated
                &&& acts == seq![
                    ActionView::Publish(EnvelopeView {
                        sender_id: user.id,
                        text: left_text(user.name),
                    }),
                    ActionView::Disconnect,
                ]
            },
        },
        SessionView::Terminated => post == pre && acts == Seq::<ActionView>::empty(),
    }
}

/// Builds `> <name> has joined the chat`.
fn joined_message(name: &str) -> (r: String)
    ensures
        r@ == joined_text(name@),
{
    let mut s = String::from_str("> ");
    s.append(name);
    s.append(" has joined the chat");
    s
}

/// Builds `> <name> has left the chat`.
fn left_message(name: &str) -> (r: String)
    ensures
        r@ == left_text(name@),
{
    let mut s = String::from_str("> ");
    s.append(name);
    s.append(" has left the chat");
    s
}

/// Builds the socket rendering of a received bus message.
fn relayed_message(text: String) -> (r: String)
    ensures
        r@ == relayed_text(text@),
{
    let mut s = String::from_str("\r");
    s.append(text.as_str());
    s.append("\r\n");
    s
}

/// The greeting written to a connection before any name has been given.
pub fn name_prompt() -> (r: String)
    ensures
        r@ == "Please enter your name: "@,
{
    String::from_str("Please enter your name: ")
}

impl Session {
    /// A fresh engine for one accepted connection, identified by `id`.
    pub fn new(id: u64) -> (s: Session)
        ensures
            s@ == (SessionView::AwaitingName { id }),
    {
        Session::AwaitingName { id }
    }

    /// Feeds one completed wait to the engine and returns the side effects
    /// the caller must perform, in order.
    pub fn step(&mut self, event: Event) -> (acts: Vec<Action>)
        ensures
            spec_step_rel(old(self)@, event@, final(self)@, acts_view(acts@)),
    {
        let mut cur = Session::Terminated;
        core::mem::swap(&mut cur, self);
        let mut acts: Vec<Action> = Vec::new();
        proof {
            assert(acts_view(acts@) =~= Seq::<ActionView>::empty());
        }
        let next: Session = match cur {
            Session::AwaitingName { id } => match event {
                Event::Line(raw) => match parse(raw.as_str()) {
                    Statement::Message(name) => {
                        proof {
                            lemma_parse_message(raw@);
                        }
                        let text = joined_message(name.as_str());
                        let user = User::new(name, id);
                        acts.push(Action::Publish(Envelope { sender_id: id, text }));
                        proof {
                            assert(acts_view(acts@) =~= seq![
                                ActionView::Publish(EnvelopeView {
                                    sender_id: id,
                                    text: joined_text(user@.name),
                                }),
                            ]);
                        }
                        Session::Active { user }
                    },
                    Statement::Command(_) => {
                        acts.push(
                            Action::WriteSocket(String::from_str("Name cannot start with '/'\r\n")),
                        );
                        acts.push(Action::Disconnect);
                        proof {
                            assert(acts_view(acts@) =~= seq![
                                ActionView::WriteSocket("Name cannot start with '/'\r\n"@),
                                ActionView::Disconnect,
                            ]);
                        }
                        Session::Terminated
                    },
                    Statement::EmptyStatement => {
                        acts.push(
                            Action::WriteSocket(String::from_str("Name cannot be empty\r\n")),
                        );
                        acts.push(Action::Disconnect);
                        proof {
                            assert(acts_view(acts@) =~= seq![
                                ActionView::WriteSocket("Name cannot be empty\r\n"@),
                                ActionView::Disconnect,
                            ]);
                        }
                        Session::Terminated
                    },
                },
                Event::ReadFailed => {
                    acts.push(Action::Disconnect);
                    proof {
                        assert(acts_view(acts@) =~= seq![ActionView::Disconnect]);
                    }
                    Session::Terminated
                },
                _ => Session::AwaitingName { id },
            },
            Session::Active { user } => {
                let mut user = user;
                match event {
                    Event::Line(raw) => match parse(raw.as_str()) {
                        Statement::Message(m) => {
                            let text = user.format_message(m);
                            acts.push(Action::Publish(Envelope { sender_id: user.id, text }));
                            proof {
                                assert(acts_view(acts@) =~= seq![
                                    ActionView::Publish(EnvelopeView {
                                        sender_id: user@.id,
                                        text: message_text(
                                            user@.color,
                                            user@.name,
                                            spec_parse(raw@)->Message_0,
                                        ),
                                    }),
                                ]);
                            }
                            Session::Active { user }
                        },
                        Statement::Command(CommandType::Quit) => {
                            let text = left_message(user.name.as_str());
                            acts.push(Action::Publish(Envelope { sender_id: user.id, text }));
                            acts.push(Action::Disconnect);
                            proof {
                                assert(acts_view(acts@) =~= seq![
                                    ActionView::Publish(EnvelopeView {
                                        sender_id: user@.id,
                                        text: left_text(user@.name),
                                    }),
                                    ActionView::Disconnect,
                                ]);
                            }
                            Session::Terminated
                        },
                        Statement::Command(CommandType::ChangeColor(cn)) => {
                            match get_color_from_string(cn) {
                                Some(col) => {
                                    user.color = col;
                                },
                                None => {
                                    acts.push(
                                        Action::WriteSocket(
                                            String::from_str("Invalid color!\r\n"),
                                        ),
                                    );
                                    proof {
                                        assert(acts_view(acts@) =~= seq![
                                            ActionView::WriteSocket("Invalid color!\r\n"@),
                                        ]);
                                    }
                                },
                            }
                            Session::Active { user }
                        },
                        Statement::Command(CommandType::Invalid) => {
                            acts.push(
                                Action::WriteSocket(String::from_str("Invalid command!\r\n")),
                            );
                            proof {
                                assert(acts_view(acts@) =~= seq![
                                    ActionView::WriteSocket("Invalid command!\r\n"@),
                                ]);
                            }
                            Session::Active { user }
                        },
                        Statement::EmptyStatement => Session::Active { user },
                    },
                    Event::Bus(env) => {
                        if env.sender_id == user.id {
                            Session::Active { user }
                        } else {
                            let text = relayed_message(env.text);
                            acts.push(Action::WriteSocket(text));
                            proof {
                                assert(acts_view(acts@) =~= seq![
                                    ActionView::WriteSocket(relayed_text(env@.text)),
                                ]);
                            }
                            Session::Active { user }
                        }
                    },
                    Event::BusLagged => Session::Active { user },
                    Event::BusClosed | Event::ReadFailed => {
                        let text = left_message(user.name.as_str());
                        acts.push(Action::Publish(Envelope { sender_id: user.id, text }));
                        acts.push(Action::Disconnect);
                        proof {
                            assert(acts_view(acts@) =~= seq![
                                ActionView::Publish(EnvelopeView {
                                    sender_id: user@.id,
                                    text: left_text(user@.name),
                                }),
                                ActionView::Disconnect,
                            ]);
                        }
                        Session::Terminated
                    },
                }
            },
            Session::Terminated => Session::Terminated,
        };
        *self = next;
        acts
    }

    /// The prompt to write before the next wait: the active user's painted
    /// prefix and `: `, or nothing outside `Active`.
    pub fn prompt(&self) -> (r: Option<String>)
        ensures
            match self@ {
                SessionView::Active { user } => r matches Some(p) && p@ == prompt_text(
                    user.color,
                    user.name,
                ),
                _ => r is None,
            },
    {
        match self {
            Session::Active { user } => Some(user.get_prompt()),
            _ => None,
        }
    }

    /// The active user, while there is one.
    pub fn user(&self) -> (r: Option<&User>)
        ensures
            match self@ {
                SessionView::Active { user } => r matches Some(u) && u@ == user,
                _ => r is None,
            },
    {
        match self {
            Session::Active { user } => Some(user),
            _ => None,
        }
    }

    /// Whether the session has reached its absorbing final state.
    pub fn is_terminated(&self) -> (r: bool)
        ensures
            r == (self@ is Terminated),
    {
        match self {
            Session::Terminated => true,
            _ => false,
        }
    }
}

/// Whether an action publishes a "joined" notice.
pub open spec fn is_join_broadcast(a: ActionView) -> bool {
    a matches ActionView::Publish(env) && (exists|n: Seq<char>| env.text == joined_text(n))
}

/// Whether an action publishes a "left" notice.
pub open spec fn is_leave_broadcast(a: ActionView) -> bool {
    a matches ActionView::Publish(env) && (exists|n: Seq<char>| env.text == left_text(n))
}

/// How many of the actions publish a "joined" notice.
pub open spec fn count_joins(acts: Seq<ActionView>) -> int
    decreases acts.len(),
{
    if acts.len() == 0 {
        0
    } else {
        count_joins(acts.drop_last()) + if is_join_broadcast(acts.last()) {
            1int
        } else {
            0int
        }
    }
}

/// How many of the actions publish a "left" notice.
pub open spec fn count_leaves(acts: Seq<ActionView>) -> int
    decreases acts.len(),
{
    if acts.len() == 0 {
        0
    } else {
        count_leaves(acts.drop_last()) + if is_leave_broadcast(acts.last()) {
            1int
        } else {
            0int
        }
    }
}

proof fn lemma_counts_one(a: ActionView)
    ensures
        count_joins(seq![a]) == if is_join_broadcast(a) {
            1int
        } else {
            0int
        },
        count_leaves(seq![a]) == if is_leave_broadcast(a) {
            1int
        } else {
            0int
        },
{
    assert(count_joins(Seq::<ActionView>::empty()) == 0);
    assert(count_leaves(Seq::<ActionView>::empty()) == 0);
    assert(seq![a].drop_last() =~= Seq::<ActionView>::empty());
    assert(seq![a].last() == a);
}

proof fn lemma_counts_two(a: ActionView, b: ActionView)
    ensures
        count_joins(seq![a, b]) == (if is_join_broadcast(a) {
            1int
        } else {
            0int
        }) + (if is_join_broadcast(b) {
            1int
        } else {
            0int
        }),
        count_leaves(seq![a, b]) == (if is_leave_broadcast(a) {
            1int
        } else {
            0int
        }) + (if is_leave_broadcast(b) {
            1int
        } else {
            0int
        }),
{
    assert(seq![a, b].drop_last() =~= seq![a]);
    assert(seq![a, b].last() == b);
    lemma_counts_one(a);
}

/// A "joined" notice and a "left" notice never coincide, whatever names
/// they carry: aligned from the end, their suffixes disagree.
pub proof fn lemma_join_leave_distinct(n: Seq<char>, m: Seq<char>)
    ensures
        joined_text(n) != left_text(m),
{
    reveal_strlit("> ");
    reveal_strlit(" has joined the chat");
    reveal_strlit(" has left the chat");
    if joined_text(n) == left_text(m) {
        assert(joined_text(n).len() == 2 + n.len() + 20);
        assert(left_text(m).len() == 2 + m.len() + 18);
        let k = joined_text(n).len() - 18;
        assert(joined_text(n)[k] == " has joined the chat"@[2]);
        assert(left_text(m)[k] == " has left the chat"@[0]);
        assert(" has joined the chat"@[2] == 'a');
        assert(" has left the chat"@[0] == ' ');
        assert(false);
    }
}

/// A rendered chat message is never a join or leave notice: it starts
/// with the ANSI escape, the notices with `>`.
pub proof fn lemma_message_not_notice(c: crate::model::Color, name: Seq<char>, msg: Seq<char>)
    ensures
        !is_join_broadcast(
            ActionView::Publish(EnvelopeView { sender_id: 0, text: message_text(c, name, msg) }),
        ),
        forall|n: Seq<char>| message_text(c, name, msg) != joined_text(n),
        forall|n: Seq<char>| message_text(c, name, msg) != left_text(n),
{
    reveal_strlit("> ");
    assert(prefix_text(c, name).len() > 0);
    assert(prefix_text(c, name)[0] == '\u{1b}');
    assert(message_text(c, name, msg)[0] == '\u{1b}');
    assert forall|n: Seq<char>| message_text(c, name, msg) != joined_text(n) by {
        assert(joined_text(n)[0] == '>');
    }
    assert forall|n: Seq<char>| message_text(c, name, msg) != left_text(n) by {
        assert(left_text(n)[0] == '>');
    }
}

/// Self-echo suppression: on a bus envelope carrying its own id, an active
/// session performs no action at all — its own messages never reach its
/// socket, and its state does not move.
pub proof fn lemma_self_echo(
    pre: SessionView,
    env: EnvelopeView,
    post: SessionView,
    acts: Seq<ActionView>,
)
    requires
        spec_step_rel(pre, EventView::Bus(env), post, acts),
        pre matches SessionView::Active { user } && env.sender_id == user.id,
    ensures
        acts == Seq::<ActionView>::empty(),
        post == pre,
{
}

/// Relay of other sessions' traffic: on a bus envelope carrying another
/// session's id, an active session writes exactly the relayed text to its
/// own socket, publishes nothing, and stays unchanged.
pub proof fn lemma_relay(
    pre: SessionView,
    env: EnvelopeView,
    post: SessionView,
    acts: Seq<ActionView>,
)
    requires
        spec_step_rel(pre, EventView::Bus(env), post, acts),
        pre matches SessionView::Active { user } && env.sender_id != user.id,
    ensures
        acts == seq![ActionView::WriteSocket(relayed_text(env.text))],
        post == pre,
{
}

/// Join/leave pairing: a step publishes exactly one "joined" notice just
/// when it enters `Active`, and exactly one "left" notice just when it
/// leaves `Active`; no other step publishes either notice.
pub proof fn lemma_join_leave_pairing(
    pre: SessionView,
    ev: EventView,
    post: SessionView,
    acts: Seq<ActionView>,
)
    requires
        spec_step_rel(pre, ev, post, acts),
    ensures
        count_joins(acts) == if !(pre is Active) && post is Active {
            1int
        } else {
            0int
        },
        count_leaves(acts) == if pre is Active && !(post is Active) {
            1int
        } else {
            0int
        },
{
    match pre {
        SessionView::AwaitingName { id } => match ev {
            EventView::Line(raw) => match spec_parse(raw) {
                SpecStatement::Message(name) => {
                    let a = ActionView::Publish(
                        EnvelopeView { sender_id: id, text: joined_text(name) },
                    );
                    lemma_counts_one(a);
                    assert(is_join_broadcast(a));
                    assert forall|m: Seq<char>| joined_text(name) != left_text(m) by {
                        lemma_join_leave_distinct(name, m);
                    }
                    assert(!is_leave_broadcast(a));
                },
                SpecStatement::Command(_) => {
                    lemma_counts_two(
                        ActionView::WriteSocket("Name cannot start with '/'\r\n"@),
                        ActionView::Disconnect,
                    );
                },
                SpecStatement::EmptyStatement => {
                    lemma_counts_two(
                        ActionView::WriteSocket("Name cannot be empty\r\n"@),
                        ActionView::Disconnect,
                    );
                },
            },
            EventView::ReadFailed => {
                lemma_counts_one(ActionView::Disconnect);
            },
            _ => {},
        },
        SessionView::Active { user } => {
            let leave = ActionView::Publish(
                EnvelopeView { sender_id: user.id, text: left_text(user.name) },
            );
            match ev {
                EventView::Line(raw) => match spec_parse(raw) {
                    SpecStatement::Message(m) => {
                        let a = ActionView::Publish(
                            EnvelopeView {
                                sender_id: user.id,
                                text: message_text(user.color, user.name, m),
                            },
                        );
                        lemma_counts_one(a);
                        lemma_message_not_notice(user.color, user.name, m);
                        assert(!is_join_broadcast(a));
                        assert(!is_leave_broadcast(a));
                    },
                    SpecStatement::Command(c) => match c {
                        SpecCommand::Quit => {
                            lemma_counts_two(leave, ActionView::Disconnect);
                            assert(is_leave_broadcast(leave));
                            assert forall|n: Seq<char>| left_text(user.name) != joined_text(n) by {
                                lemma_join_leave_distinct(n, user.name);
                            }
                            assert(!is_join_broadcast(leave));
                        },
                        SpecCommand::ChangeColor(cn) => {
                            if spec_resolve_color(cn) is None {
                                lemma_counts_one(
                                    ActionView::WriteSocket("Invalid color!\r\n"@),
                                );
                            }
                        },
                        SpecCommand::Invalid => {
                            lemma_counts_one(ActionView::WriteSocket("Invalid command!\r\n"@));
                        },
                    },
                    SpecStatement::EmptyStatement => {},
                },
                EventView::Bus(env) => {
                    if env.sender_id != user.id {
                        lemma_counts_one(ActionView::WriteSocket(relayed_text(env.text)));
                    }
                },
                EventView::BusLagged => {},
                EventView::BusClosed | EventView::ReadFailed => {
                    lemma_counts_two(leave, ActionView::Disconnect);
                    assert(is_leave_broadcast(leave));
                    assert forall|n: Seq<char>| left_text(user.name) != joined_text(n) by {
                        lemma_join_leave_distinct(n, user.name);
                    }
                    assert(!is_join_broadcast(leave));
                },
            }
        },
        SessionView::Terminated => {},
    }
}

/// One observed step of a session: the event fed in, the state reached,
/// and the actions returned.
pub struct StepView {
    pub event: EventView,
    pub post: SessionView,
    pub acts: Seq<ActionView>,
}

/// Whether a run is possible: every step's transition satisfies the
/// engine's relation, chaining states from `s0`.
pub open spec fn run_ok(s0: SessionView, steps: Seq<StepView>) -> bool
    decreases steps.len(),
{
    steps.len() == 0 || (spec_step_rel(s0, steps[0].event, steps[0].post, steps[0].acts)
        && run_ok(steps[0].post, steps.drop_first()))
}

/// Total "joined" notices published over a run.
pub open spec fn run_joins(steps: Seq<StepView>) -> int
    decreases steps.len(),
{
    if steps.len() == 0 {
        0
    } else {
        count_joins(steps[0].acts) + run_joins(steps.drop_first())
    }
}

/// Total "left" notices published over a run.
pub open spec fn run_leaves(steps: Seq<StepView>) -> int
    decreases steps.len(),
{
    if steps.len() == 0 {
        0
    } else {
        count_leaves(steps[0].acts) + run_leaves(steps.drop_first())
    }
}

/// How often a run enters `Active`.
pub open spec fn run_entries(s0: SessionView, steps: Seq<StepView>) -> int
    decreases steps.len(),
{
    if steps.len() == 0 {
        0
    } else {
        (if !(s0 is Active) && steps[0].post is Active {
            1int
        } else {
            0int
        }) + run_entries(steps[0].post, steps.drop_first())
    }
}

/// How often a run leaves `Active`.
pub open spec fn run_exits(s0: SessionView, steps: Seq<StepView>) -> int
    decreases steps.len(),
{
    if steps.len() == 0 {
        0
    } else {
        (if s0 is Active && !(steps[0].post is Active) {
            1int
        } else {
            0int
        }) + run_exits(steps[0].post, steps.drop_first())
    }
}

/// Join/leave pairing over a whole run: a session broadcasts exactly as
/// many "joined" notices as it makes transitions into `Active`, and
/// exactly as many "left" notices as transitions out of it — every path
/// out, the quit command, a failed read and bus closure alike.
pub proof fn lemma_run_pairing(s0: SessionView, steps: Seq<StepView>)
    requires
        run_ok(s0, steps),
    ensures
        run_joins(steps) == run_entries(s0, steps),
        run_leaves(steps) == run_exits(s0, steps),
    decreases steps.len(),
{
    if steps.len() > 0 {
        lemma_join_leave_pairing(s0, steps[0].event, steps[0].post, steps[0].acts);
        lemma_run_pairing(steps[0].post, steps.drop_first());
    }
}

/// A colour name outside the table changes nothing: the session keeps its
/// prior colour, and the only effect is the rejection written to this
/// session's own socket — nothing reaches the bus.
pub proof fn lemma_invalid_color_keeps_color(
    pre: SessionView,
    raw: Seq<char>,
    post: SessionView,
    acts: Seq<ActionView>,
)
    requires
        spec_step_rel(pre, EventView::Line(raw), post, acts),
        pre is Active,
        spec_parse(raw) matches SpecStatement::Command(SpecCommand::ChangeColor(cn))
            && spec_resolve_color(cn) is None,
    ensures
        post == pre,
        acts == seq![ActionView::WriteSocket("Invalid color!\r\n"@)],
{
}

/// An active session's identity is stable: any step that stays in
/// `Active` keeps the name and the id; only the colour may change.
pub proof fn lemma_identity_stable(
    pre: SessionView,
    ev: EventView,
    post: SessionView,
    acts: Seq<ActionView>,
)
    requires
        spec_step_rel(pre, ev, post, acts),
        pre is Active,
        post is Active,
    ensures
        post->user.name == pre->user.name,
        post->user.id == pre->user.id,
{
}

/// Every step preserves well-formedness: an active user's name stays
/// non-empty and never starts with `/`.
pub proof fn lemma_wf_preserved(
    pre: SessionView,
    ev: EventView,
    post: SessionView,
    acts: Seq<ActionView>,
)
    requires
        spec_step_rel(pre, ev, post, acts),
        session_wf(pre),
    ensures
        session_wf(post),
{
    if let EventView::Line(raw) = ev {
        lemma_parse_message(raw);
    }
}

} // verus!
