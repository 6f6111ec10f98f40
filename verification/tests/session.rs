use client_server::cliente::{client_step, ClientAction, ClientPhase};
use client_server::config::{get_hostip, get_password, get_port1, get_port2, Config};
use client_server::registry::{find_client_by_id, save_client_data, ClientData};
use client_server::servidor::{
    apply_change, assign_client_id, backdoor_step, keep_alive_message, next_client_id,
    password_prompt, BackdoorAction, BackdoorEvent, RegistryChange, Session, SessionAction,
    SessionEvent, SessionState,
};

fn config() -> Config {
    Config::new(
        "1234".to_string(),
        "127.0.0.1".to_string(),
        "1111".to_string(),
        "2222".to_string(),
    )
}

#[test]
fn config_getters_give_back_the_fields() {
    let c = config();
    assert_eq!(get_password(&c), "1234");
    assert_eq!(get_hostip(&c), "127.0.0.1");
    assert_eq!(get_port1(&c), "1111");
    assert_eq!(get_port2(&c), "2222");
}

#[test]
fn session_needs_a_colon_in_the_peer_address() {
    assert!(Session::open(1000, "localhost").is_none());
    let s = Session::open(1000, "10.1.2.3:5555").unwrap();
    assert_eq!(s.ip, "10.1.2.3");
    assert_eq!(s.port, "5555");
    assert_eq!(s.state, SessionState::AwaitingPassword);
}

fn send_text(a: &SessionAction) -> Option<&str> {
    match a {
        SessionAction::Send(t) => Some(t),
        _ => None,
    }
}

#[test]
fn admission_registers_a_new_client() {
    let mut clients: Vec<ClientData> = Vec::new();
    let mut s = Session::open(1000, "10.1.2.3:5555").unwrap();
    let (action, change) =
        s.step(SessionEvent::PasswordReceived(" 1234\n".to_string()), &config(), &clients);
    assert_eq!(send_text(&action), Some("Thank you! You are now connected.\n"));
    assert_eq!(s.state, SessionState::Welcoming);
    assert!(!apply_change(&mut clients, change));
    assert_eq!(find_client_by_id(&clients, 1000), 1);
    assert_eq!(clients[0].ip, "10.1.2.3");
    assert_eq!(clients[0].port, "5555");
}

#[test]
fn wrong_password_is_refused() {
    let clients: Vec<ClientData> = Vec::new();
    let mut s = Session::open(1000, "10.1.2.3:5555").unwrap();
    let (action, change) =
        s.step(SessionEvent::PasswordReceived("4321".to_string()), &config(), &clients);
    match action {
        SessionAction::SendAndClose(t) => assert_eq!(t, "Invalid password. Closing connection.\n"),
        _ => panic!("expected a refusal"),
    }
    assert!(matches!(change, RegistryChange::Unchanged));
    assert_eq!(s.state, SessionState::Closed);
}

#[test]
fn active_id_is_refused() {
    let mut clients: Vec<ClientData> = Vec::new();
    save_client_data(&mut clients, 1000, "x".to_string(), "1".to_string());
    let mut s = Session::open(1000, "10.1.2.3:5555").unwrap();
    let (action, change) =
        s.step(SessionEvent::PasswordReceived("1234".to_string()), &config(), &clients);
    match action {
        SessionAction::SendAndShutdown(t) => assert_eq!(t, "You are now DESconnected.\n"),
        _ => panic!("expected a shutdown"),
    }
    assert!(matches!(change, RegistryChange::Unchanged));
    assert_eq!(s.state, SessionState::Closed);
}

#[test]
fn broken_pipe_then_return_reactivates() {
    let mut clients: Vec<ClientData> = Vec::new();
    let mut s = Session::open(1000, "10.1.2.3:5555").unwrap();
    let (_, change) = s.step(SessionEvent::PasswordReceived("1234".to_string()), &config(), &clients);
    apply_change(&mut clients, change);
    let (action, _) = s.step(SessionEvent::KeepAliveDue(7), &config(), &clients);
    assert_eq!(send_text(&action), Some("100: keep alive  1000 7"));
    assert_eq!(s.state, SessionState::Connected);
    let (action, change) = s.step(SessionEvent::WriteFailed(true), &config(), &clients);
    assert!(matches!(action, SessionAction::Close));
    assert!(apply_change(&mut clients, change));
    assert_eq!(find_client_by_id(&clients, 1000), 2);
    assert_eq!(assign_client_id(&clients, 1020), 1000);

    let mut again = Session::open(1000, "10.1.2.3:6000").unwrap();
    let (action, change) =
        again.step(SessionEvent::PasswordReceived("1234".to_string()), &config(), &clients);
    assert_eq!(send_text(&action), Some("Thank you! You are now connected.\n"));
    assert!(apply_change(&mut clients, change));
    assert_eq!(clients.len(), 1);
    assert_eq!(find_client_by_id(&clients, 1000), 1);
}

#[test]
fn other_write_failure_keeps_the_list() {
    let mut clients: Vec<ClientData> = Vec::new();
    save_client_data(&mut clients, 1000, "x".to_string(), "1".to_string());
    let mut s = Session::open(1000, "10.1.2.3:5555").unwrap();
    s.state = SessionState::Connected;
    let (_, change) = s.step(SessionEvent::WriteFailed(false), &config(), &clients);
    assert!(matches!(change, RegistryChange::Unchanged));
    let mut w = Session::open(1000, "10.1.2.3:5555").unwrap();
    w.state = SessionState::Welcoming;
    let (_, change) = w.step(SessionEvent::WriteFailed(true), &config(), &clients);
    assert!(matches!(change, RegistryChange::Unchanged));
    assert_eq!(w.state, SessionState::Closed);
}

#[test]
fn keep_alive_format() {
    assert_eq!(keep_alive_message(1000, 0), format!("{}{} {} {}", 100, ": keep alive ", 1000, 0));
    assert_eq!(keep_alive_message(65535, u64::MAX), format!("100: keep alive  65535 {}", u64::MAX));
    assert_eq!(password_prompt(), "Please send the SENHA:\n");
}

#[test]
fn ids_are_reused_or_advanced() {
    let clients: Vec<ClientData> = Vec::new();
    assert_eq!(assign_client_id(&clients, 1000), 1000);
    assert_eq!(next_client_id(1000), Some(1010));
    assert_eq!(next_client_id(65530), None);
    assert_eq!(next_client_id(65525), Some(65535));
}

#[test]
fn listing_port_answers_listar() {
    let mut clients: Vec<ClientData> = Vec::new();
    save_client_data(&mut clients, 1000, "1.2.3.4".to_string(), "9".to_string());
    match backdoor_step(BackdoorEvent::Received("LISTAR\r\n".to_string()), &clients) {
        BackdoorAction::Reply(t) => {
            assert_eq!(t, "Connected clients:\nID: 1000, IP: 1.2.3.4, Status: active Port2: 9\n")
        }
        _ => panic!("expected a reply"),
    }
    assert!(matches!(
        backdoor_step(BackdoorEvent::Received("hello".to_string()), &clients),
        BackdoorAction::Pause
    ));
    assert!(matches!(backdoor_step(BackdoorEvent::Closed, &clients), BackdoorAction::Stop));
}

#[test]
fn shared_password_with_surrounding_space_fails() {
    let clients: Vec<ClientData> = Vec::new();
    let c = Config::new(" pw".to_string(), "h".to_string(), "1".to_string(), "2".to_string());
    let (_, answer) = client_step(ClientPhase::AwaitPasswordPrompt, &password_prompt(), false, " pw", "7");
    let answer = match answer {
        ClientAction::Send(t) => t,
        _ => panic!("expected an answer"),
    };
    let mut s = Session::open(1, "a:b").unwrap();
    s.step(SessionEvent::PasswordReceived(answer), &c, &clients);
    assert_eq!(s.state, SessionState::Closed);

    let c = Config::new("pw".to_string(), "h".to_string(), "1".to_string(), "2".to_string());
    let (_, answer) = client_step(ClientPhase::AwaitPasswordPrompt, &password_prompt(), false, "pw", "7");
    let answer = match answer {
        ClientAction::Send(t) => t,
        _ => panic!("expected an answer"),
    };
    let mut s = Session::open(1, "a:b").unwrap();
    s.step(SessionEvent::PasswordReceived(answer), &c, &clients);
    assert_eq!(s.state, SessionState::Welcoming);
}
