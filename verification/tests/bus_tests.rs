use chat_core::model::{Color, User};
use chat_core::session::{Action, Envelope, Event, Session};
use tokio::sync::broadcast;

fn perform(acts: Vec<Action>, tx: &broadcast::Sender<Envelope>, socket: &mut Vec<String>) {
    for a in acts {
        match a {
            Action::WriteSocket(s) => socket.push(s),
            Action::Publish(env) => {
                let _ = tx.send(env);
            }
            Action::Disconnect => {}
        }
    }
}

fn drain(
    rx: &mut broadcast::Receiver<Envelope>,
    session: &mut Session,
    tx: &broadcast::Sender<Envelope>,
    socket: &mut Vec<String>,
) {
    loop {
        let event = match rx.try_recv() {
            Ok(env) => Event::Bus(env),
            Err(broadcast::error::TryRecvError::Lagged(_)) => Event::BusLagged,
            Err(_) => break,
        };
        let acts = session.step(event);
        perform(acts, tx, socket);
    }
}

fn chatter(name: &str, color: Color, id: u64) -> Session {
    Session::Active { user: User { name: name.to_string(), color, id } }
}

#[test]
fn fanout_preserves_publish_order() {
    let (tx, _keep) = broadcast::channel::<Envelope>(16);
    let mut alice = chatter("alice", Color::Red, 1);
    let mut bob = chatter("bob", Color::Blue, 2);
    let mut carol = chatter("carol", Color::Cyan, 3);
    let mut bob_rx = tx.subscribe();
    let mut carol_rx = tx.subscribe();
    let mut alice_rx = tx.subscribe();
    let mut alice_socket = Vec::new();
    let mut bob_socket = Vec::new();
    let mut carol_socket = Vec::new();

    perform(alice.step(Event::Line("one\r\n".to_string())), &tx, &mut alice_socket);
    perform(alice.step(Event::Line("two\r\n".to_string())), &tx, &mut alice_socket);

    drain(&mut bob_rx, &mut bob, &tx, &mut bob_socket);
    drain(&mut carol_rx, &mut carol, &tx, &mut carol_socket);
    drain(&mut alice_rx, &mut alice, &tx, &mut alice_socket);

    let expected = vec![
        "\r\u{1b}[31m\r[alice]\u{1b}[0m: one\r\n".to_string(),
        "\r\u{1b}[31m\r[alice]\u{1b}[0m: two\r\n".to_string(),
    ];
    assert_eq!(bob_socket, expected);
    assert_eq!(carol_socket, expected);
    assert_eq!(alice_socket, Vec::<String>::new());
}

#[test]
fn end_to_end_two_clients() {
    let (tx, _keep) = broadcast::channel::<Envelope>(16);

    // bob is already connected and named
    let mut bob = Session::new(2);
    let mut bob_socket = Vec::new();
    let mut bob_rx = tx.subscribe();
    perform(bob.step(Event::Line("bob\r\n".to_string())), &tx, &mut bob_socket);
    drain(&mut bob_rx, &mut bob, &tx, &mut bob_socket);
    assert_eq!(bob_socket, Vec::<String>::new()); // his own join is filtered

    // alice connects and gives her name
    let mut alice = Session::new(1);
    let mut alice_socket = Vec::new();
    let mut alice_rx = tx.subscribe();
    perform(alice.step(Event::Line("alice\r\n".to_string())), &tx, &mut alice_socket);
    assert_eq!(alice.user().unwrap().name, "alice");
    drain(&mut bob_rx, &mut bob, &tx, &mut bob_socket);
    assert_eq!(bob_socket, vec!["\r> alice has joined the chat\r\n".to_string()]);

    // alice turns green; her prompt follows
    perform(alice.step(Event::Line("/color green\r\n".to_string())), &tx, &mut alice_socket);
    assert_eq!(alice.prompt().unwrap(), "\u{1b}[32m\r[alice]\u{1b}[0m: ");

    // alice chats; bob sees it, alice does not see her own line
    perform(alice.step(Event::Line("hi\r\n".to_string())), &tx, &mut alice_socket);
    drain(&mut bob_rx, &mut bob, &tx, &mut bob_socket);
    assert_eq!(
        bob_socket.last().unwrap(),
        "\r\u{1b}[32m\r[alice]\u{1b}[0m: hi\r\n"
    );
    drain(&mut alice_rx, &mut alice, &tx, &mut alice_socket);
    assert_eq!(alice_socket, Vec::<String>::new());

    // alice quits; bob hears the leave notice and is unaffected
    perform(alice.step(Event::Line("/quit\r\n".to_string())), &tx, &mut alice_socket);
    assert!(alice.is_terminated());
    drop(alice_rx);
    drain(&mut bob_rx, &mut bob, &tx, &mut bob_socket);
    assert_eq!(bob_socket.last().unwrap(), "\r> alice has left the chat\r\n");
    assert!(!bob.is_terminated());
}

#[test]
fn lagged_subscription_is_survivable() {
    let (tx, _keep) = broadcast::channel::<Envelope>(1);
    let mut bob = chatter("bob", Color::Blue, 2);
    let mut bob_rx = tx.subscribe();
    let mut bob_socket = Vec::new();
    for text in ["one", "two", "three"] {
        let _ = tx.send(Envelope { sender_id: 1, text: text.to_string() });
    }
    drain(&mut bob_rx, &mut bob, &tx, &mut bob_socket);
    // the oldest entries were dropped; the session kept going
    assert_eq!(bob_socket, vec!["\rthree\r\n".to_string()]);
    assert!(!bob.is_terminated());
}
