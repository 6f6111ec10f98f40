use vstd::prelude::*;

use crate::text::{contains, occurs_in, trim, trimmed};

verus! {

/// Where the client is in its exchange with the server.
#[derive(PartialEq, Eq, Structural, Clone, Copy, Debug)]
pub enum ClientPhase {
    /// Connected to the first port; the server's prompt is awaited.
    AwaitPasswordPrompt,
    /// The password was answered; the verdict is awaited.
    AwaitPasswordVerdict,
    /// The id was answered; the server's word on the registration is awaited.
    AwaitConnectionVerdict,
    /// Connected to the second port; its prompt is awaited.
    AwaitIdPrompt,
    /// Keep-alive messages arrive.
    ReceivingKeepAlive,
    Done,
}

pub enum ClientAction {
    /// Write the text, then read the next message.
    Send(String),
    /// Read the next message.
    Wait,
    /// Record the keep-alive message, then read the next one.
    LogKeepAlive(String),
    /// Shut the connection down both ways and connect to the second port.
    ShutdownAndReconnect,
    /// Shut the connection down both ways and stop.
    ShutdownAndFinish,
    /// Stop without shutting the connection down.
    Finish,
}

pub enum ClientActionView {
    Send(Seq<char>),
    Wait,
    LogKeepAlive(Seq<char>),
    ShutdownAndReconnect,
    ShutdownAndFinish,
    Finish,
}

impl View for ClientAction {
    type V = ClientActionView;

    open spec fn view(&self) -> ClientActionView {
        match self {
            ClientAction::Send(t) => ClientActionView::Send(t@),
            ClientAction::Wait => ClientActionView::Wait,
            ClientAction::LogKeepAlive(t) => ClientActionView::LogKeepAlive(t@),
            ClientAction::ShutdownAndReconnect => ClientActionView::ShutdownAndReconnect,
            ClientAction::ShutdownAndFinish => ClientActionView::ShutdownAndFinish,
            ClientAction::Finish => ClientActionView::Finish,
        }
    }
}

pub open spec fn asks_password() -> Seq<char> {
    "Please send the SENHA"@
}

pub open spec fn refuses_password() -> Seq<char> {
    "Invalid password"@
}

pub open spec fn asks_id() -> Seq<char> {
    "Password correct. Please send your ID"@
}

pub open spec fn admits_client() -> Seq<char> {
    "You are now connected"@
}

pub open spec fn asks_id_again() -> Seq<char> {
    "Please send the ID:"@
}

pub open spec fn keep_alive_mark() -> Seq<char> {
    "100:"@
}

/// The decision of the client: from its phase, the text it just read and whether a stop was
/// asked for, to its next phase and what to do.
pub open spec fn client_step_spec(
    phase: ClientPhase,
    received: Seq<char>,
    stop_requested: bool,
    password: Seq<char>,
    id: Seq<char>,
) -> (ClientPhase, ClientActionView) {
    match phase {
        ClientPhase::AwaitPasswordPrompt => (
            ClientPhase::AwaitPasswordVerdict,
            if occurs_in(received, asks_password()) {
                ClientActionView::Send(trimmed(password))
            } else {
                ClientActionView::Wait
            },
        ),
        ClientPhase::AwaitPasswordVerdict => if occurs_in(received, refuses_password()) {
            (ClientPhase::Done, ClientActionView::Finish)
        } else if occurs_in(received, asks_id()) {
            (ClientPhase::AwaitConnectionVerdict, ClientActionView::Send(trimmed(id)))
        } else {
            (ClientPhase::AwaitConnectionVerdict, ClientActionView::Wait)
        },
        ClientPhase::AwaitConnectionVerdict => if occurs_in(received, admits_client()) {
            (ClientPhase::AwaitIdPrompt, ClientActionView::ShutdownAndReconnect)
        } else {
            (ClientPhase::Done, ClientActionView::ShutdownAndFinish)
        },
        ClientPhase::AwaitIdPrompt => (
            ClientPhase::ReceivingKeepAlive,
            if occurs_in(received, asks_id_again()) {
                ClientActionView::Send(trimmed(id))
            } else {
                ClientActionView::Wait
            },
        ),
        ClientPhase::ReceivingKeepAlive => if stop_requested {
            (ClientPhase::Done, ClientActionView::ShutdownAndFinish)
        } else if occurs_in(received, keep_alive_mark()) {
            (ClientPhase::ReceivingKeepAlive, ClientActionView::LogKeepAlive(received))
        } else {
            (ClientPhase::ReceivingKeepAlive, ClientActionView::Wait)
        },
        ClientPhase::Done => (ClientPhase::Done, ClientActionView::Finish),
    }
}

/// What the client does with the text it just read (`received`), given whether Ctrl+C was
/// pressed, the configured password and its id.
pub fn client_step(
    phase: ClientPhase,
    received: &str,
    stop_requested: bool,
    password: &str,
    id: &str,
) -> (r: (ClientPhase, ClientAction))
    ensures
        (r.0, r.1@) == client_step_spec(phase, received@, stop_requested, password@, id@),
{
    match phase {
        ClientPhase::AwaitPasswordPrompt => {
            if contains(received, "Please send the SENHA") {
                (ClientPhase::AwaitPasswordVerdict, ClientAction::Send(trim(password)))
            } else {
                (ClientPhase::AwaitPasswordVerdict, ClientAction::Wait)
            }
        },
        ClientPhase::AwaitPasswordVerdict => {
            if contains(received, "Invalid password") {
                (ClientPhase::Done, ClientAction::Finish)
            } else if contains(received, "Password correct. Please send your ID") {
                (ClientPhase::AwaitConnectionVerdict, ClientAction::Send(trim(id)))
            } else {
                (ClientPhase::AwaitConnectionVerdict, ClientAction::Wait)
            }
        },
        ClientPhase::AwaitConnectionVerdict => {
            if contains(received, "You are now connected") {
                (ClientPhase::AwaitIdPrompt, ClientAction::ShutdownAndReconnect)
            } else {
                (ClientPhase::Done, ClientAction::ShutdownAndFinish)
            }
        },
        ClientPhase::AwaitIdPrompt => {
            if contains(received, "Please send the ID:") {
                (ClientPhase::ReceivingKeepAlive, ClientAction::Send(trim(id)))
            } else {
                (ClientPhase::ReceivingKeepAlive, ClientAction::Wait)
            }
        },
        ClientPhase::ReceivingKeepAlive => {
            if stop_requested {
                (ClientPhase::Done, ClientAction::ShutdownAndFinish)
            } else if contains(received, "100:") {
                (ClientPhase::ReceivingKeepAlive, ClientAction::LogKeepAlive(String::from_str(received)))
            } else {
                (ClientPhase::ReceivingKeepAlive, ClientAction::Wait)
            }
        },
        ClientPhase::Done => (ClientPhase::Done, ClientAction::Finish),
    }
}

} // verus!
