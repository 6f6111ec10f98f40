use vstd::prelude::*;

use crate::text::{decimal, decimal_string, str_equal};

verus! {

/// One client known to the server.
#[derive(Debug, Clone)]
pub struct ClientData {
    pub id: u16,
    pub ip: String,
    /// `"active"` or `"inactive"`.
    pub status: String,
    /// The client's port.
    pub port: String,
}

/// What the server knows of one client.
pub struct ClientView {
    pub id: u16,
    pub ip: Seq<char>,
    pub status: Seq<char>,
    pub port: Seq<char>,
}

impl View for ClientData {
    type V = ClientView;

    open spec fn view(&self) -> ClientView {
        ClientView { id: self.id, ip: self.ip@, status: self.status@, port: self.port@ }
    }
}

/// The list of clients as the server sees it, in registration order.
pub open spec fn registry(s: Seq<ClientData>) -> Seq<ClientView> {
    Seq::new(s.len(), |i: int| s[i]@)
}

/// The status of a connected client.
pub open spec fn active() -> Seq<char> {
    seq!['a', 'c', 't', 'i', 'v', 'e']
}

/// The status of a client whose connection broke.
pub open spec fn inactive() -> Seq<char> {
    seq!['i', 'n', 'a', 'c', 't', 'i', 'v', 'e']
}

// ---------------------------------------------------------------------------
// The first client that meets a condition

/// `i` is the first position of `v` whose client meets `p`.
pub open spec fn is_first_where(v: Seq<ClientView>, p: spec_fn(ClientView) -> bool, i: int) -> bool {
    &&& 0 <= i < v.len()
    &&& p(v[i])
    &&& forall|j: int| 0 <= j < i ==> !p(#[trigger] v[j])
}

/// The first position of `v` whose client meets `p`, or -1 where none does.
pub open spec fn first_where(v: Seq<ClientView>, p: spec_fn(ClientView) -> bool) -> int {
    if exists|i: int| is_first_where(v, p, i) {
        choose|i: int| is_first_where(v, p, i)
    } else {
        -1
    }
}

proof fn lemma_first_exists(v: Seq<ClientView>, p: spec_fn(ClientView) -> bool, k: int)
    requires
        0 <= k < v.len(),
        p(v[k]),
    ensures
        exists|i: int| is_first_where(v, p, i),
    decreases k,
{
    if exists|j: int| 0 <= j < k && p(v[j]) {
        let j = choose|j: int| 0 <= j < k && p(v[j]);
        lemma_first_exists(v, p, j);
    } else {
        assert(is_first_where(v, p, k));
    }
}

/// `first_where` finds the first client that meets `p` exactly when there is one.
pub proof fn lemma_first_where(v: Seq<ClientView>, p: spec_fn(ClientView) -> bool)
    ensures
        (exists|k: int| 0 <= k < v.len() && p(v[k])) ==> is_first_where(v, p, first_where(v, p)),
        !(exists|k: int| 0 <= k < v.len() && p(v[k])) ==> first_where(v, p) == -1,
        forall|i: int| is_first_where(v, p, i) ==> i == first_where(v, p),
{
    if exists|k: int| 0 <= k < v.len() && p(v[k]) {
        let k = choose|k: int| 0 <= k < v.len() && p(v[k]);
        lemma_first_exists(v, p, k);
    }
    assert forall|i: int| is_first_where(v, p, i) implies i == first_where(v, p) by {
        let f = first_where(v, p);
        assert(is_first_where(v, p, f));
        if i < f {
            assert(!p(v[i]));
        } else if f < i {
            assert(!p(v[f]));
        }
    }
}

// ---------------------------------------------------------------------------
// The model of each operation

pub open spec fn inactive_client() -> spec_fn(ClientView) -> bool {
    |c: ClientView| c.status == inactive()
}

pub open spec fn client_with_id(id: u16) -> spec_fn(ClientView) -> bool {
    |c: ClientView| c.id == id
}

/// A client with this id whose status is `"active"` or `"inactive"`.
pub open spec fn registered_client(id: u16) -> spec_fn(ClientView) -> bool {
    |c: ClientView| c.id == id && (c.status == active() || c.status == inactive())
}

/// The id of the first inactive client, or 0 where no client is inactive.
pub open spec fn first_inactive_id(v: Seq<ClientView>) -> u16 {
    let i = first_where(v, inactive_client());
    if i >= 0 {
        v[i].id
    } else {
        0
    }
}

/// 1 where the first client with this id and a known status is active, 2 where it is
/// inactive, 0 where there is no such client.
pub open spec fn lookup_status(v: Seq<ClientView>, id: u16) -> u8 {
    let i = first_where(v, registered_client(id));
    if i < 0 {
        0
    } else if v[i].status == active() {
        1
    } else {
        2
    }
}

/// The registry once a new active client is appended.
pub open spec fn with_new_client(v: Seq<ClientView>, id: u16, ip: Seq<char>, port: Seq<char>) -> Seq<
    ClientView,
> {
    v.push(ClientView { id, ip, status: active(), port })
}

/// The registry once the first client with this id has the given status (unchanged where
/// no client has the id).
pub open spec fn with_status(v: Seq<ClientView>, id: u16, status: Seq<char>) -> Seq<ClientView> {
    let i = first_where(v, client_with_id(id));
    if i >= 0 {
        v.update(i, ClientView { status, ..v[i] })
    } else {
        v
    }
}

/// The registry once the first client with this id has the given port (unchanged where no
/// client has the id).
pub open spec fn with_port(v: Seq<ClientView>, id: u16, port: Seq<char>) -> Seq<ClientView> {
    let i = first_where(v, client_with_id(id));
    if i >= 0 {
        v.update(i, ClientView { port, ..v[i] })
    } else {
        v
    }
}

/// Some client has this id.
pub open spec fn has_id(v: Seq<ClientView>, id: u16) -> bool {
    exists|k: int| 0 <= k < v.len() && v[k].id == id
}

// ---------------------------------------------------------------------------
// Status words

fn is_active_status(s: &String) -> (r: bool)
    ensures
        r == (s@ == active()),
{
    proof {
        reveal_strlit("active");
        assert("active"@ =~= active());
    }
    str_equal(s.as_str(), "active")
}

fn is_inactive_status(s: &String) -> (r: bool)
    ensures
        r == (s@ == inactive()),
{
    proof {
        reveal_strlit("inactive");
        assert("inactive"@ =~= inactive());
    }
    str_equal(s.as_str(), "inactive")
}

fn active_status() -> (s: String)
    ensures
        s@ == active(),
{
    proof {
        reveal_strlit("active");
        assert("active"@ =~= active());
    }
    String::from_str("active")
}

// ---------------------------------------------------------------------------
// Operations

/// Appends a new client with status `"active"`.
pub fn save_client_data(
    clients: &mut Vec<ClientData>,
    client_id: u16,
    client_ip: String,
    client_port: String,
)
    ensures
        registry(final(clients)@) == with_new_client(
            registry(old(clients)@),
            client_id,
            client_ip@,
            client_port@,
        ),
{
    let client_data = ClientData {
        id: client_id,
        ip: client_ip,
        status: active_status(),
        port: client_port,
    };
    clients.push(client_data);
    assert(registry(clients@) =~= with_new_client(
        registry(old(clients)@),
        client_id,
        client_ip@,
        client_port@,
    ));
}

/// Finds the first inactive client and returns its ID.
/// Returns 0 if no inactive clients are found.
pub fn find_first_inactive(clients: &Vec<ClientData>) -> (r: u16)
    ensures
        r == first_inactive_id(registry(clients@)),
{
    let ghost v = registry(clients@);
    proof {
        lemma_first_where(v, inactive_client());
    }
    let n = clients.len();
    let mut i: usize = 0;
    while i < n
        invariant
            v == registry(clients@),
            n == clients.len(),
            i <= n,
            forall|j: int| 0 <= j < i ==> !inactive_client()(#[trigger] v[j]),
            forall|k: int| is_first_where(v, inactive_client(), k) ==> k == first_where(
                v,
                inactive_client(),
            ),
        decreases n - i,
    {
        if is_inactive_status(&clients[i].status) {
            assert(is_first_where(v, inactive_client(), i as int));
            return clients[i].id;
        }
        i = i + 1;
    }
    assert(!(exists|k: int| 0 <= k < v.len() && inactive_client()(v[k])));
    0
}

/// 1 if the first client with `target_id` (and a status of `"active"` or `"inactive"`) is
/// active, 2 if it is inactive, 0 if there is none.
pub fn find_client_by_id(clients: &Vec<ClientData>, target_id: u16) -> (r: u8)
    ensures
        r == lookup_status(registry(clients@), target_id),
{
    let ghost v = registry(clients@);
    let ghost p = registered_client(target_id);
    proof {
        lemma_first_where(v, p);
    }
    let n = clients.len();
    let mut i: usize = 0;
    while i < n
        invariant
            v == registry(clients@),
            p == registered_client(target_id),
            n == clients.len(),
            i <= n,
            forall|j: int| 0 <= j < i ==> !p(#[trigger] v[j]),
            forall|k: int| is_first_where(v, p, k) ==> k == first_where(v, p),
        decreases n - i,
    {
        if clients[i].id == target_id {
            if is_active_status(&clients[i].status) {
                assert(is_first_where(v, p, i as int));
                return 1;
            }
            if is_inactive_status(&clients[i].status) {
                assert(is_first_where(v, p, i as int));
                return 2;
            }
        }
        i = i + 1;
    }
    assert(!(exists|k: int| 0 <= k < v.len() && p(v[k])));
    0
}

/// The position of the first client with `target_id`, or `None`.
fn position_of(clients: &Vec<ClientData>, target_id: u16) -> (r: Option<usize>)
    ensures
        r matches Some(i) ==> i as int == first_where(registry(clients@), client_with_id(target_id)),
        r is None ==> first_where(registry(clients@), client_with_id(target_id)) == -1,
        r is None <==> !has_id(registry(clients@), target_id),
{
    let ghost v = registry(clients@);
    let ghost p = client_with_id(target_id);
    proof {
        lemma_first_where(v, p);
    }
    let n = clients.len();
    let mut i: usize = 0;
    while i < n
        invariant
            v == registry(clients@),
            p == client_with_id(target_id),
            n == clients.len(),
            i <= n,
            forall|j: int| 0 <= j < i ==> !p(#[trigger] v[j]),
            forall|k: int| is_first_where(v, p, k) ==> k == first_where(v, p),
        decreases n - i,
    {
        if clients[i].id == target_id {
            assert(is_first_where(v, p, i as int));
            return Some(i);
        }
        i = i + 1;
    }
    assert(!(exists|k: int| 0 <= k < v.len() && p(v[k])));
    None
}

/// Gives the first client with `target_id` the status `new_status`; false if no client has
/// that id.
pub fn update_client_status(clients: &mut Vec<ClientData>, target_id: u16, new_status: &str) -> (r:
    bool)
    ensures
        r == has_id(registry(old(clients)@), target_id),
        registry(final(clients)@) == with_status(
            registry(old(clients)@),
            target_id,
            new_status@,
        ),
{
    match position_of(clients, target_id) {
        Some(i) => {
            let c = ClientData {
                id: clients[i].id,
                ip: clients[i].ip.clone(),
                status: String::from_str(new_status),
                port: clients[i].port.clone(),
            };
            clients.set(i, c);
            assert(registry(clients@) =~= with_status(
                registry(old(clients)@),
                target_id,
                new_status@,
            ));
            true
        },
        None => false,
    }
}

/// Gives the first client with `target_id` the port `new_port`; false if no client has
/// that id.
pub fn _update_client_port(clients: &mut Vec<ClientData>, target_id: u16, new_port: &str) -> (r:
    bool)
    ensures
        r == has_id(registry(old(clients)@), target_id),
        registry(final(clients)@) == with_port(registry(old(clients)@), target_id, new_port@),
{
    match position_of(clients, target_id) {
        Some(i) => {
            let c = ClientData {
                id: clients[i].id,
                ip: clients[i].ip.clone(),
                status: clients[i].status.clone(),
                port: String::from_str(new_port),
            };
            clients.set(i, c);
            assert(registry(clients@) =~= with_port(
                registry(old(clients)@),
                target_id,
                new_port@,
            ));
            true
        },
        None => false,
    }
}

// ---------------------------------------------------------------------------
// Listing

/// One line of the listing: `ID: {id}, IP: {ip}, Status: {status} Port2: {port}`.
pub open spec fn client_line(c: ClientView) -> Seq<char> {
    "ID: "@ + decimal(c.id as nat) + ", IP: "@ + c.ip + ", Status: "@ + c.status + " Port2: "@
        + c.port + "\n"@
}

/// The lines of all clients, in order.
pub open spec fn client_lines(v: Seq<ClientView>) -> Seq<char>
    decreases v.len(),
{
    if v.len() == 0 {
        Seq::empty()
    } else {
        client_lines(v.drop_last()) + client_line(v.last())
    }
}

/// The text that lists the clients.
pub open spec fn listing(v: Seq<ClientView>) -> Seq<char> {
    if v.len() == 0 {
        "No clients connected.\n"@
    } else {
        "Connected clients:\n"@ + client_lines(v)
    }
}

/// The list of clients as text: a header line, then one line per client.
pub fn list_connected_clients(clients: &Vec<ClientData>) -> (r: String)
    ensures
        r@ == listing(registry(clients@)),
{
    let ghost v = registry(clients@);
    if clients.len() == 0 {
        return String::from_str("No clients connected.\n");
    }
    let mut result = String::from_str("Connected clients:\n");
    let n = clients.len();
    let mut i: usize = 0;
    while i < n
        invariant
            v == registry(clients@),
            n == clients.len(),
            i <= n,
            result@ == "Connected clients:\n"@ + client_lines(v.subrange(0, i as int)),
        decreases n - i,
    {
        let c = &clients[i];
        let id = decimal_string(c.id as u64);
        result.append("ID: ");
        result.append(id.as_str());
        result.append(", IP: ");
        result.append(c.ip.as_str());
        result.append(", Status: ");
        result.append(c.status.as_str());
        result.append(" Port2: ");
        result.append(c.port.as_str());
        result.append("\n");
        assert(v.subrange(0, i + 1).drop_last() =~= v.subrange(0, i as int));
        assert(result@ =~= "Connected clients:\n"@ + client_lines(v.subrange(0, i + 1)));
        i = i + 1;
    }
    assert(v.subrange(0, n as int) =~= v);
    result
}

} // verus!
