use client_server::cliente::{client_step, ClientAction, ClientPhase};

fn sent(a: &ClientAction) -> Option<&str> {
    match a {
        ClientAction::Send(t) => Some(t),
        _ => None,
    }
}

#[test]
fn client_answers_the_prompt_with_the_password() {
    let (p, a) = client_step(ClientPhase::AwaitPasswordPrompt, "Please send the SENHA:\n", false, " 1234 ", "7");
    assert_eq!(p, ClientPhase::AwaitPasswordVerdict);
    assert_eq!(sent(&a), Some("1234"));
    let (p, a) = client_step(ClientPhase::AwaitPasswordPrompt, "hello", false, "1234", "7");
    assert_eq!(p, ClientPhase::AwaitPasswordVerdict);
    assert!(matches!(a, ClientAction::Wait));
}

#[test]
fn client_stops_on_a_refusal() {
    let (p, a) = client_step(
        ClientPhase::AwaitPasswordVerdict,
        "Invalid password. Closing connection.\n",
        false,
        "1234",
        "7",
    );
    assert_eq!(p, ClientPhase::Done);
    assert!(matches!(a, ClientAction::Finish));
}

#[test]
fn client_sends_its_id_when_asked() {
    let (p, a) = client_step(
        ClientPhase::AwaitPasswordVerdict,
        "Password correct. Please send your ID",
        false,
        "1234",
        " 42\n",
    );
    assert_eq!(p, ClientPhase::AwaitConnectionVerdict);
    assert_eq!(sent(&a), Some("42"));
    let (p, a) = client_step(ClientPhase::AwaitIdPrompt, "Please send the ID:", false, "1234", "42");
    assert_eq!(p, ClientPhase::ReceivingKeepAlive);
    assert_eq!(sent(&a), Some("42"));
}

#[test]
fn client_moves_to_the_second_port_only_when_admitted() {
    let (p, a) = client_step(
        ClientPhase::AwaitConnectionVerdict,
        "Thank you! You are now connected.\n",
        false,
        "1234",
        "7",
    );
    assert_eq!(p, ClientPhase::AwaitIdPrompt);
    assert!(matches!(a, ClientAction::ShutdownAndReconnect));
    let (p, a) = client_step(
        ClientPhase::AwaitConnectionVerdict,
        "You are now DESconnected.\n",
        false,
        "1234",
        "7",
    );
    assert_eq!(p, ClientPhase::Done);
    assert!(matches!(a, ClientAction::ShutdownAndFinish));
}

#[test]
fn client_logs_keep_alives_until_stopped() {
    let (p, a) = client_step(ClientPhase::ReceivingKeepAlive, "100: keep alive  1000 3", false, "", "");
    assert_eq!(p, ClientPhase::ReceivingKeepAlive);
    match a {
        ClientAction::LogKeepAlive(t) => assert_eq!(t, "100: keep alive  1000 3"),
        _ => panic!("expected a log"),
    }
    let (p, a) = client_step(ClientPhase::ReceivingKeepAlive, "noise", false, "", "");
    assert_eq!(p, ClientPhase::ReceivingKeepAlive);
    assert!(matches!(a, ClientAction::Wait));
    let (p, a) = client_step(ClientPhase::ReceivingKeepAlive, "100: keep alive", true, "", "");
    assert_eq!(p, ClientPhase::Done);
    assert!(matches!(a, ClientAction::ShutdownAndFinish));
    let (p, a) = client_step(ClientPhase::Done, "", false, "", "");
    assert_eq!(p, ClientPhase::Done);
    assert!(matches!(a, ClientAction::Finish));
}
