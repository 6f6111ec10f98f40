use vstd::prelude::*;

use crate::config::{get_password, Config};
use crate::registry::{
    active, find_client_by_id, find_first_inactive, first_inactive_id, inactive, list_connected_clients,
    listing, lookup_status, registry, save_client_data, update_client_status, with_new_client,
    with_status, ClientData, ClientView,
};
use crate::text::{decimal, decimal_string, split_once, str_equal, trim, trimmed};

verus! {

// ---------------------------------------------------------------------------
// What the server says

/// The prompt that opens every connection.
pub open spec fn password_prompt_text() -> Seq<char> {
    "Please send the SENHA:\n"@
}

/// The reply to a wrong password.
pub open spec fn invalid_password_text() -> Seq<char> {
    "Invalid password. Closing connection.\n"@
}

/// The reply to a client whose id is already connected.
pub open spec fn already_connected_text() -> Seq<char> {
    "You are now DESconnected.\n"@
}

/// The reply to an admitted client.
pub open spec fn welcome_text() -> Seq<char> {
    "Thank you! You are now connected.\n"@
}

/// The code that starts every keep-alive message.
pub const MSGCODE100: u16 = 100;

/// The keep-alive message: `format!("{}{} {} {}", 100, ": keep alive ", id, counter)`.
pub open spec fn keep_alive_text(client_id: u16, counter: u64) -> Seq<char> {
    decimal(MSGCODE100 as nat) + ": keep alive "@ + " "@ + decimal(client_id as nat) + " "@
        + decimal(counter as nat)
}

/// The prompt that opens every connection.
pub fn password_prompt() -> (s: String)
    ensures
        s@ == password_prompt_text(),
{
    String::from_str("Please send the SENHA:\n")
}

/// The keep-alive message sent to a client every few seconds.
pub fn keep_alive_message(client_id: u16, counter: u64) -> (s: String)
    ensures
        s@ == keep_alive_text(client_id, counter),
{
    let mut s = decimal_string(MSGCODE100 as u64);
    s.append(": keep alive ");
    s.append(" ");
    let id = decimal_string(client_id as u64);
    s.append(id.as_str());
    s.append(" ");
    let c = decimal_string(counter);
    s.append(c.as_str());
    s
}

// ---------------------------------------------------------------------------
// Changes to the list of clients

/// A change that a session asks for, to be made on the shared list of clients.
pub enum RegistryChange {
    Unchanged,
    /// Append a new active client.
    Register { id: u16, ip: String, port: String },
    /// Give the first client with `id` this status.
    SetStatus { id: u16, status: String },
}

pub enum ChangeView {
    Unchanged,
    Register { id: u16, ip: Seq<char>, port: Seq<char> },
    SetStatus { id: u16, status: Seq<char> },
}

impl View for RegistryChange {
    type V = ChangeView;

    open spec fn view(&self) -> ChangeView {
        match self {
            RegistryChange::Unchanged => ChangeView::Unchanged,
            RegistryChange::Register { id, ip, port } => ChangeView::Register {
                id: *id,
                ip: ip@,
                port: port@,
            },
            RegistryChange::SetStatus { id, status } => ChangeView::SetStatus {
                id: *id,
                status: status@,
            },
        }
    }
}

/// The list of clients once `c` is made on it.
pub open spec fn changed(v: Seq<ClientView>, c: ChangeView) -> Seq<ClientView> {
    match c {
        ChangeView::Unchanged => v,
        ChangeView::Register { id, ip, port } => with_new_client(v, id, ip, port),
        ChangeView::SetStatus { id, status } => with_status(v, id, status),
    }
}

/// Makes the change on the list of clients. True where a status was set on a client that
/// was found.
pub fn apply_change(clients: &mut Vec<ClientData>, change: RegistryChange) -> (r: bool)
    ensures
        registry(final(clients)@) == changed(registry(old(clients)@), change@),
        r == (change@ matches ChangeView::SetStatus { id, .. } && exists|k: int|
            0 <= k < old(clients)@.len() && old(clients)@[k].id == id),
{
    match change {
        RegistryChange::Unchanged => false,
        RegistryChange::Register { id, ip, port } => {
            save_client_data(clients, id, ip, port);
            false
        },
        RegistryChange::SetStatus { id, status } => {
            let r = update_client_status(clients, id, status.as_str());
            proof {
                let v = registry(old(clients)@);
                if exists|k: int| 0 <= k < old(clients)@.len() && old(clients)@[k].id == id {
                    let k = choose|k: int| 0 <= k < old(clients)@.len() && old(clients)@[k].id == id;
                    assert(v[k].id == id);
                }
            }
            r
        },
    }
}

// ---------------------------------------------------------------------------
// One client's session on the registration port

#[derive(PartialEq, Eq, Structural, Clone, Copy, Debug)]
pub enum SessionState {
    /// The prompt was sent; the password is awaited.
    AwaitingPassword,
    /// The client was admitted and the welcome is on its way.
    Welcoming,
    /// Keep-alive messages flow.
    Connected,
    Closed,
}

pub enum SessionEvent {
    /// The client's answer to the prompt, as text.
    PasswordReceived(String),
    /// The next keep-alive message is due; the counter of messages sent so far.
    KeepAliveDue(u64),
    /// The last write failed; true where the pipe broke.
    WriteFailed(bool),
}

pub enum EventView {
    PasswordReceived(Seq<char>),
    KeepAliveDue(u64),
    WriteFailed(bool),
}

impl View for SessionEvent {
    type V = EventView;

    open spec fn view(&self) -> EventView {
        match self {
            SessionEvent::PasswordReceived(t) => EventView::PasswordReceived(t@),
            SessionEvent::KeepAliveDue(c) => EventView::KeepAliveDue(*c),
            SessionEvent::WriteFailed(b) => EventView::WriteFailed(*b),
        }
    }
}

pub enum SessionAction {
    /// Write the text and go on.
    Send(String),
    /// Write the text (a failure does not matter) and end the session.
    SendAndClose(String),
    /// Write the text, shut the connection down both ways and end the session.
    SendAndShutdown(String),
    /// End the session.
    Close,
}

pub enum ActionView {
    Send(Seq<char>),
    SendAndClose(Seq<char>),
    SendAndShutdown(Seq<char>),
    Close,
}

impl View for SessionAction {
    type V = ActionView;

    open spec fn view(&self) -> ActionView {
        match self {
            SessionAction::Send(t) => ActionView::Send(t@),
            SessionAction::SendAndClose(t) => ActionView::SendAndClose(t@),
            SessionAction::SendAndShutdown(t) => ActionView::SendAndShutdown(t@),
            SessionAction::Close => ActionView::Close,
        }
    }
}

/// A client's connection to the registration port.
pub struct Session {
    pub client_id: u16,
    /// The client's address, up to the first `:` of the peer address.
    pub ip: String,
    /// The rest of the peer address.
    pub port: String,
    pub state: SessionState,
}

/// The decision of a session: from its state, the event, the password and the list of
/// clients, to its next state, what to send and the change to the list.
pub open spec fn session_step_spec(
    state: SessionState,
    event: EventView,
    client_id: u16,
    ip: Seq<char>,
    port: Seq<char>,
    password: Seq<char>,
    v: Seq<ClientView>,
) -> (SessionState, ActionView, ChangeView) {
    match (state, event) {
        (SessionState::AwaitingPassword, EventView::PasswordReceived(text)) => {
            if trimmed(text) != password {
                (
                    SessionState::Closed,
                    ActionView::SendAndClose(invalid_password_text()),
                    ChangeView::Unchanged,
                )
            } else if lookup_status(v, client_id) == 1 {
                (
                    SessionState::Closed,
                    ActionView::SendAndShutdown(already_connected_text()),
                    ChangeView::Unchanged,
                )
            } else if lookup_status(v, client_id) == 0 {
                (
                    SessionState::Welcoming,
                    ActionView::Send(welcome_text()),
                    ChangeView::Register { id: client_id, ip, port },
                )
            } else {
                (
                    SessionState::Welcoming,
                    ActionView::Send(welcome_text()),
                    ChangeView::SetStatus { id: client_id, status: active() },
                )
            }
        },
        (SessionState::Welcoming, EventView::KeepAliveDue(counter)) | (
            SessionState::Connected,
            EventView::KeepAliveDue(counter),
        ) => (
            SessionState::Connected,
            ActionView::Send(keep_alive_text(client_id, counter)),
            ChangeView::Unchanged,
        ),
        (SessionState::Connected, EventView::WriteFailed(broken_pipe)) => (
            SessionState::Closed,
            ActionView::Close,
            if broken_pipe {
                ChangeView::SetStatus { id: client_id, status: inactive() }
            } else {
                ChangeView::Unchanged
            },
        ),
        _ => (SessionState::Closed, ActionView::Close, ChangeView::Unchanged),
    }
}

fn active_word() -> (s: String)
    ensures
        s@ == active(),
{
    proof {
        reveal_strlit("active");
        assert("active"@ =~= active());
    }
    String::from_str("active")
}

fn inactive_word() -> (s: String)
    ensures
        s@ == inactive(),
{
    proof {
        reveal_strlit("inactive");
        assert("inactive"@ =~= inactive());
    }
    String::from_str("inactive")
}

impl Session {
    /// A session for a client with this id, whose peer address is `peer_address`
    /// (`"ip:port"`); `None` where the address holds no `:`.
    pub fn open(client_id: u16, peer_address: &str) -> (r: Option<Session>)
        ensures
            r is None <==> !peer_address@.contains(':'),
            r matches Some(s) ==> {
                &&& s.client_id == client_id
                &&& s.state == SessionState::AwaitingPassword
                &&& peer_address@ == s.ip@ + seq![':'] + s.port@
                &&& !s.ip@.contains(':')
            },
    {
        match split_once(peer_address, ':') {
            Some((ip, port)) => Some(Session { client_id, ip, port, state: SessionState::AwaitingPassword }),
            None => None,
        }
    }

    /// Decides what the session does on `event`; the list of clients is only read here,
    /// and the change it asks for is made with `apply_change`.
    pub fn step(&mut self, event: SessionEvent, config: &Config, clients: &Vec<ClientData>) -> (r: (
        SessionAction,
        RegistryChange,
    ))
        ensures
            final(self).client_id == old(self).client_id,
            final(self).ip == old(self).ip,
            final(self).port == old(self).port,
            (final(self).state, r.0@, r.1@) == session_step_spec(
                old(self).state,
                event@,
                old(self).client_id,
                old(self).ip@,
                old(self).port@,
                config@.password,
                registry(clients@),
            ),
    {
        let state = self.state;
        match event {
            SessionEvent::PasswordReceived(text) => {
                if state != SessionState::AwaitingPassword {
                    self.state = SessionState::Closed;
                    return (SessionAction::Close, RegistryChange::Unchanged);
                }
                let received = trim(text.as_str());
                let password = get_password(config);
                if !str_equal(received.as_str(), password.as_str()) {
                    self.state = SessionState::Closed;
                    return (
                        SessionAction::SendAndClose(
                            String::from_str("Invalid password. Closing connection.\n"),
                        ),
                        RegistryChange::Unchanged,
                    );
                }
                let found = find_client_by_id(clients, self.client_id);
                if found == 1 {
                    self.state = SessionState::Closed;
                    (
                        SessionAction::SendAndShutdown(String::from_str("You are now DESconnected.\n")),
                        RegistryChange::Unchanged,
                    )
                } else if found == 0 {
                    self.state = SessionState::Welcoming;
                    (
                        SessionAction::Send(String::from_str("Thank you! You are now connected.\n")),
                        RegistryChange::Register {
                            id: self.client_id,
                            ip: self.ip.clone(),
                            port: self.port.clone(),
                        },
                    )
                } else {
                    self.state = SessionState::Welcoming;
                    (
                        SessionAction::Send(String::from_str("Thank you! You are now connected.\n")),
                        RegistryChange::SetStatus { id: self.client_id, status: active_word() },
                    )
                }
            },
            SessionEvent::KeepAliveDue(counter) => {
                if state == SessionState::Welcoming || state == SessionState::Connected {
                    self.state = SessionState::Connected;
                    (
                        SessionAction::Send(keep_alive_message(self.client_id, counter)),
                        RegistryChange::Unchanged,
                    )
                } else {
                    self.state = SessionState::Closed;
                    (SessionAction::Close, RegistryChange::Unchanged)
                }
            },
            SessionEvent::WriteFailed(broken_pipe) => {
                self.state = SessionState::Closed;
                if state == SessionState::Connected && broken_pipe {
                    (
                        SessionAction::Close,
                        RegistryChange::SetStatus { id: self.client_id, status: inactive_word() },
                    )
                } else {
                    (SessionAction::Close, RegistryChange::Unchanged)
                }
            },
        }
    }
}

// ---------------------------------------------------------------------------
// Handing out client ids

/// The id for a newly accepted connection: the id of the first inactive client where one
/// has a nonzero id, otherwise the current id.
pub fn assign_client_id(clients: &Vec<ClientData>, current: u16) -> (r: u16)
    ensures
        r == if first_inactive_id(registry(clients@)) > 0 {
            first_inactive_id(registry(clients@))
        } else {
            current
        },
{
    let new_client = find_first_inactive(clients);
    if new_client > 0 {
        new_client
    } else {
        current
    }
}

/// The id after `id`: ten more, or `None` where that does not fit in a `u16`.
pub fn next_client_id(id: u16) -> (r: Option<u16>)
    ensures
        r matches Some(n) ==> n == id + 10,
        r is None <==> id + 10 > u16::MAX,
{
    id.checked_add(10)
}

// ---------------------------------------------------------------------------
// The listing port

pub enum BackdoorEvent {
    /// Text arrived.
    Received(String),
    /// The peer closed the connection (a read of zero bytes).
    Closed,
}

pub enum BackdoorAction {
    /// Write the text and read again at once.
    Reply(String),
    /// Wait a second, then read again.
    Pause,
    /// End the connection.
    Stop,
}

/// The command that asks for the list of clients.
pub open spec fn list_command() -> Seq<char> {
    "LISTAR"@
}

/// What the listing port does with what it read: the list of clients for `LISTAR`
/// (surrounding whitespace aside), nothing for anything else, and stop when the peer left.
pub fn backdoor_step(event: BackdoorEvent, clients: &Vec<ClientData>) -> (r: BackdoorAction)
    ensures
        event matches BackdoorEvent::Closed ==> r matches BackdoorAction::Stop,
        event matches BackdoorEvent::Received(text) ==> (if trimmed(text@) == list_command() {
            r matches BackdoorAction::Reply(t) && t@ == listing(registry(clients@))
        } else {
            r matches BackdoorAction::Pause
        }),
{
    match event {
        BackdoorEvent::Closed => BackdoorAction::Stop,
        BackdoorEvent::Received(text) => {
            let command = trim(text.as_str());
            if str_equal(command.as_str(), "LISTAR") {
                BackdoorAction::Reply(list_connected_clients(clients))
            } else {
                BackdoorAction::Pause
            }
        },
    }
}

} // verus!
