use chat_core::model::{Color, User};
use chat_core::session::{name_prompt, Action, Envelope, Event, Session};

fn active(color: Color, id: u64) -> Session {
    Session::Active { user: User { name: "alice".to_string(), color, id } }
}

fn line(s: &str) -> Event {
    Event::Line(s.to_string())
}

#[test]
fn greeting_text() {
    assert_eq!(name_prompt(), "Please enter your name: ");
}

#[test]
fn join_publishes_one_notice() {
    let mut s = Session::new(1);
    let acts = s.step(line("alice\r\n"));
    assert_eq!(
        acts,
        vec![Action::Publish(Envelope {
            sender_id: 1,
            text: "> alice has joined the chat".to_string(),
        })]
    );
    let u = s.user().expect("session should be active");
    assert_eq!(u.name, "alice");
    assert_eq!(u.id, 1);
}

#[test]
fn name_starting_with_slash_is_rejected() {
    let mut s = Session::new(1);
    let acts = s.step(line("/quit\r\n"));
    assert_eq!(
        acts,
        vec![
            Action::WriteSocket("Name cannot start with '/'\r\n".to_string()),
            Action::Disconnect,
        ]
    );
    assert!(s.is_terminated());
}

#[test]
fn empty_name_is_rejected() {
    let mut s = Session::new(1);
    let acts = s.step(line("\r\n"));
    assert_eq!(
        acts,
        vec![
            Action::WriteSocket("Name cannot be empty\r\n".to_string()),
            Action::Disconnect,
        ]
    );
    assert!(s.is_terminated());
}

#[test]
fn read_failure_before_name_disconnects_silently() {
    let mut s = Session::new(1);
    let acts = s.step(Event::ReadFailed);
    assert_eq!(acts, vec![Action::Disconnect]);
    assert!(s.is_terminated());
}

#[test]
fn bus_traffic_before_name_is_ignored() {
    let mut s = Session::new(1);
    let env = Envelope { sender_id: 9, text: "x".to_string() };
    assert_eq!(s.step(Event::Bus(env)), vec![]);
    assert!(!s.is_terminated());
    assert!(s.user().is_none());
}

#[test]
fn color_command_changes_prompt() {
    let mut s = active(Color::Red, 1);
    let acts = s.step(line("/color green\r\n"));
    assert_eq!(acts, vec![]);
    assert_eq!(s.prompt().unwrap(), "\u{1b}[32m\r[alice]\u{1b}[0m: ");
}

#[test]
fn invalid_color_keeps_prior_color() {
    let mut s = active(Color::Red, 1);
    assert_eq!(s.step(line("/color purple\r\n")), vec![]);
    let acts = s.step(line("/color bogus\r\n"));
    assert_eq!(acts, vec![Action::WriteSocket("Invalid color!\r\n".to_string())]);
    assert_eq!(s.prompt().unwrap(), "\u{1b}[35m\r[alice]\u{1b}[0m: ");
    assert_eq!(s.user().unwrap().color, Color::Purple);
}

#[test]
fn invalid_command_is_reported() {
    let mut s = active(Color::Red, 1);
    let acts = s.step(line("/frobnicate\r\n"));
    assert_eq!(acts, vec![Action::WriteSocket("Invalid command!\r\n".to_string())]);
    assert!(!s.is_terminated());
}

#[test]
fn chat_line_is_published_with_prefix() {
    let mut s = active(Color::Green, 1);
    let acts = s.step(line("hi\r\n"));
    assert_eq!(
        acts,
        vec![Action::Publish(Envelope {
            sender_id: 1,
            text: "\u{1b}[32m\r[alice]\u{1b}[0m: hi".to_string(),
        })]
    );
}

#[test]
fn own_bus_message_is_suppressed() {
    let mut s = active(Color::Green, 1);
    let env = Envelope { sender_id: 1, text: "\u{1b}[32m\r[alice]\u{1b}[0m: hi".to_string() };
    assert_eq!(s.step(Event::Bus(env)), vec![]);
    assert!(!s.is_terminated());
}

#[test]
fn foreign_bus_message_is_relayed() {
    let mut s = active(Color::Green, 1);
    let env = Envelope { sender_id: 2, text: "> bob has joined the chat".to_string() };
    let acts = s.step(Event::Bus(env));
    assert_eq!(
        acts,
        vec![Action::WriteSocket("\r> bob has joined the chat\r\n".to_string())]
    );
}

#[test]
fn quit_publishes_leave_and_disconnects() {
    let mut s = active(Color::Green, 1);
    let acts = s.step(line("/quit\r\n"));
    assert_eq!(
        acts,
        vec![
            Action::Publish(Envelope {
                sender_id: 1,
                text: "> alice has left the chat".to_string(),
            }),
            Action::Disconnect,
        ]
    );
    assert!(s.is_terminated());
}

#[test]
fn abrupt_read_failure_still_publishes_leave() {
    let mut s = active(Color::Green, 1);
    let acts = s.step(Event::ReadFailed);
    assert_eq!(
        acts,
        vec![
            Action::Publish(Envelope {
                sender_id: 1,
                text: "> alice has left the chat".to_string(),
            }),
            Action::Disconnect,
        ]
    );
    assert!(s.is_terminated());
}

#[test]
fn bus_closure_ends_the_session() {
    let mut s = active(Color::Green, 1);
    let acts = s.step(Event::BusClosed);
    assert_eq!(
        acts,
        vec![
            Action::Publish(Envelope {
                sender_id: 1,
                text: "> alice has left the chat".to_string(),
            }),
            Action::Disconnect,
        ]
    );
    assert!(s.is_terminated());
}

#[test]
fn bus_lag_is_not_fatal() {
    let mut s = active(Color::Green, 1);
    assert_eq!(s.step(Event::BusLagged), vec![]);
    assert!(!s.is_terminated());
}

#[test]
fn empty_line_is_a_noop() {
    let mut s = active(Color::Green, 1);
    assert_eq!(s.step(line("\r\n")), vec![]);
    assert!(!s.is_terminated());
}

#[test]
fn terminated_is_absorbing() {
    let mut s = active(Color::Green, 1);
    s.step(line("/quit\r\n"));
    assert!(s.is_terminated());
    assert_eq!(s.step(line("hello\r\n")), vec![]);
    assert_eq!(s.step(Event::ReadFailed), vec![]);
    assert!(s.is_terminated());
    assert!(s.prompt().is_none());
    assert!(s.user().is_none());
}

#[test]
fn prompt_tracks_the_active_user() {
    let mut s = Session::new(3);
    assert!(s.prompt().is_none());
    s.step(line("carol\r\n"));
    let p = s.prompt().unwrap();
    assert!(p.contains("\r[carol]"));
    assert!(p.ends_with(": "));
}
