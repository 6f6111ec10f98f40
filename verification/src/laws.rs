use vstd::prelude::*;

use crate::cliente::{
    admits_client, asks_id, asks_id_again, asks_password, client_step_spec, keep_alive_mark,
    refuses_password, ClientActionView, ClientPhase,
};
use crate::servidor::{
    already_connected_text, changed, invalid_password_text, keep_alive_text, list_command,
    password_prompt_text, session_step_spec, welcome_text, ActionView, ChangeView, EventView,
    SessionState,
};
use crate::text::{decimal, lemma_trim_idempotent, occurs_in, trimmed};
use crate::registry::{
    client_line, client_lines, listing,
    active, client_with_id, first_inactive_id, first_where, has_id, inactive, inactive_client,
    is_first_where, lemma_first_where, lookup_status, registered_client, with_new_client, with_port,
    with_status, ClientView,
};

verus! {

/// Registering a client makes it known as active, unless a client with its id and a known
/// status was there before, which keeps its answer; answers for other ids do not change.
pub proof fn law_lookup_after_save(
    v: Seq<ClientView>,
    id: u16,
    ip: Seq<char>,
    port: Seq<char>,
    other: u16,
)
    ensures
        lookup_status(with_new_client(v, id, ip, port), id) == if lookup_status(v, id) == 0 {
            1u8
        } else {
            lookup_status(v, id)
        },
        other != id ==> lookup_status(with_new_client(v, id, ip, port), other) == lookup_status(
            v,
            other,
        ),
{
    let w = with_new_client(v, id, ip, port);
    lemma_lookup_after_push(v, w, id);
    lemma_lookup_after_push(v, w, other);
    let p = registered_client(id);
    if lookup_status(v, id) == 0 {
        lemma_first_where(v, p);
        lemma_first_where(w, p);
        assert(is_first_where(w, p, v.len() as int));
    }
}

/// Appending a client keeps the answer for every id that was already answered, and for an
/// id the new client does not carry.
proof fn lemma_lookup_after_push(v: Seq<ClientView>, w: Seq<ClientView>, id: u16)
    requires
        w.len() == v.len() + 1,
        forall|k: int| 0 <= k < v.len() ==> w[k] == v[k],
    ensures
        lookup_status(v, id) != 0 ==> lookup_status(w, id) == lookup_status(v, id),
        !registered_client(id)(w[v.len() as int]) ==> lookup_status(w, id) == lookup_status(
            v,
            id,
        ),
{
    let p = registered_client(id);
    lemma_first_where(v, p);
    lemma_first_where(w, p);
    if lookup_status(v, id) != 0 {
        let f = first_where(v, p);
        assert(is_first_where(w, p, f));
    } else if !p(w[v.len() as int]) {
        if exists|k: int| 0 <= k < w.len() && p(w[k]) {
            let f = first_where(w, p);
            assert(p(v[f]));
        }
    }
}

/// Once the first client with an id has the status `"active"`, the lookup of that id says
/// active (1); with `"inactive"`, it says inactive (2). Where no client has the id, nothing
/// changes. Lookups of other ids keep their answers.
pub proof fn law_lookup_after_status(v: Seq<ClientView>, id: u16, other: u16)
    ensures
        has_id(v, id) ==> lookup_status(with_status(v, id, active()), id) == 1,
        has_id(v, id) ==> lookup_status(with_status(v, id, inactive()), id) == 2,
        !has_id(v, id) ==> with_status(v, id, active()) == v && with_status(v, id, inactive())
            == v,
        other != id ==> lookup_status(with_status(v, id, active()), other) == lookup_status(
            v,
            other,
        ),
        other != id ==> lookup_status(with_status(v, id, inactive()), other) == lookup_status(
            v,
            other,
        ),
{
    lemma_lookup_status_set(v, id, active(), other);
    lemma_lookup_status_set(v, id, inactive(), other);
}

proof fn lemma_lookup_status_set(v: Seq<ClientView>, id: u16, st: Seq<char>, other: u16)
    requires
        st == active() || st == inactive(),
    ensures
        has_id(v, id) ==> lookup_status(with_status(v, id, st), id) == (if st == active() {
            1u8
        } else {
            2u8
        }),
        !has_id(v, id) ==> with_status(v, id, st) == v,
        other != id ==> lookup_status(with_status(v, id, st), other) == lookup_status(v, other),
{
    let q = client_with_id(id);
    lemma_first_where(v, q);
    if has_id(v, id) {
        let k = choose|k: int| 0 <= k < v.len() && v[k].id == id;
        assert(q(v[k]));
        let i = first_where(v, q);
        let w = with_status(v, id, st);
        let p = registered_client(id);
        lemma_first_where(w, p);
        assert(forall|j: int| 0 <= j < i ==> !q(#[trigger] v[j]));
        assert(is_first_where(w, p, i)) by {
            assert forall|j: int| 0 <= j < i implies !p(#[trigger] w[j]) by {
                assert(!q(v[j]));
            }
        }
        if other != id {
            let po = registered_client(other);
            lemma_first_where(v, po);
            lemma_first_where(w, po);
            assert forall|j: int| 0 <= j < v.len() implies po(#[trigger] w[j]) == po(v[j]) by {
                if j == i {
                    assert(v[j].id == id);
                }
            }
            if exists|k: int| 0 <= k < v.len() && po(v[k]) {
                let f = first_where(v, po);
                assert(is_first_where(w, po, f));
            } else {
                assert(!(exists|k: int| 0 <= k < w.len() && po(w[k])));
            }
        }
    }
}

/// The id that `find_first_inactive` gives back belongs to an inactive client whenever one
/// is inactive, and is 0 otherwise.
pub proof fn law_first_inactive(v: Seq<ClientView>)
    ensures
        (exists|k: int| 0 <= k < v.len() && v[k].status == inactive()) ==> exists|k: int|
            0 <= k < v.len() && v[k].status == inactive() && v[k].id == first_inactive_id(v),
        !(exists|k: int| 0 <= k < v.len() && v[k].status == inactive()) ==> first_inactive_id(v)
            == 0,
{
    let p = inactive_client();
    lemma_first_where(v, p);
    if exists|k: int| 0 <= k < v.len() && v[k].status == inactive() {
        let k = choose|k: int| 0 <= k < v.len() && v[k].status == inactive();
        assert(p(v[k]));
        let f = first_where(v, p);
        assert(v[f].status == inactive());
    } else {
        assert(!(exists|k: int| 0 <= k < v.len() && p(v[k])));
    }
}

/// A newly registered client is active, so the first inactive client stays the same.
pub proof fn law_first_inactive_after_save(
    v: Seq<ClientView>,
    id: u16,
    ip: Seq<char>,
    port: Seq<char>,
)
    ensures
        first_inactive_id(with_new_client(v, id, ip, port)) == first_inactive_id(v),
{
    let w = with_new_client(v, id, ip, port);
    let p = inactive_client();
    lemma_first_where(v, p);
    lemma_first_where(w, p);
    assert(!p(w[v.len() as int])) by {
        assert(active()[0] != inactive()[0]);
    }
    if exists|k: int| 0 <= k < v.len() && p(v[k]) {
        let f = first_where(v, p);
        assert(is_first_where(w, p, f));
    } else {
        assert(!(exists|k: int| 0 <= k < w.len() && p(w[k])));
    }
}

/// Changing a client's port changes neither the status lookups nor the first inactive
/// client, and keeps the number of clients.
pub proof fn law_port_change_keeps_status(v: Seq<ClientView>, id: u16, port: Seq<char>, any: u16)
    ensures
        with_port(v, id, port).len() == v.len(),
        lookup_status(with_port(v, id, port), any) == lookup_status(v, any),
        first_inactive_id(with_port(v, id, port)) == first_inactive_id(v),
{
    let w = with_port(v, id, port);
    let q = client_with_id(id);
    lemma_first_where(v, q);
    assert(forall|j: int| 0 <= j < v.len() ==> (#[trigger] w[j]).status == v[j].status && w[j].id
        == v[j].id);
    let p = registered_client(any);
    lemma_first_where(v, p);
    lemma_first_where(w, p);
    if exists|k: int| 0 <= k < v.len() && p(v[k]) {
        let f = first_where(v, p);
        assert(is_first_where(w, p, f));
    } else {
        assert(!(exists|k: int| 0 <= k < w.len() && p(w[k])));
    }
    let r = inactive_client();
    lemma_first_where(v, r);
    lemma_first_where(w, r);
    if exists|k: int| 0 <= k < v.len() && r(v[k]) {
        let f = first_where(v, r);
        assert(is_first_where(w, r, f));
    } else {
        assert(!(exists|k: int| 0 <= k < w.len() && r(w[k])));
    }
}

// ---------------------------------------------------------------------------
// Sessions

/// A client that sends the right password is admitted, and is then known as active,
/// unless a client with its id is active already.
pub proof fn law_admission(
    v: Seq<ClientView>,
    client_id: u16,
    ip: Seq<char>,
    port: Seq<char>,
    password: Seq<char>,
    text: Seq<char>,
)
    requires
        trimmed(text) == password,
        lookup_status(v, client_id) != 1,
    ensures
        ({
            let (state, action, change) = session_step_spec(
                SessionState::AwaitingPassword,
                EventView::PasswordReceived(text),
                client_id,
                ip,
                port,
                password,
                v,
            );
            &&& state == SessionState::Welcoming
            &&& action == ActionView::Send(welcome_text())
            &&& lookup_status(changed(v, change), client_id) == 1
        }),
{
    law_lookup_after_save(v, client_id, ip, port, client_id);
    if lookup_status(v, client_id) == 2 {
        let p = registered_client(client_id);
        lemma_first_where(v, p);
        let f = first_where(v, p);
        assert(v[f].id == client_id);
        law_lookup_after_status(v, client_id, client_id);
    }
}

/// A wrong password closes the session, and so does an id that is active already; the list
/// of clients is left as it was.
pub proof fn law_refusal(
    v: Seq<ClientView>,
    client_id: u16,
    ip: Seq<char>,
    port: Seq<char>,
    password: Seq<char>,
    text: Seq<char>,
)
    requires
        trimmed(text) != password || lookup_status(v, client_id) == 1,
    ensures
        ({
            let (state, action, change) = session_step_spec(
                SessionState::AwaitingPassword,
                EventView::PasswordReceived(text),
                client_id,
                ip,
                port,
                password,
                v,
            );
            &&& state == SessionState::Closed
            &&& changed(v, change) == v
            &&& trimmed(text) != password ==> action == ActionView::SendAndClose(
                invalid_password_text(),
            )
            &&& trimmed(text) == password ==> action == ActionView::SendAndShutdown(
                already_connected_text(),
            )
        }),
{
}

/// When the pipe to a connected client breaks, the client is marked inactive: its lookup
/// then answers 2. Any other write failure leaves the list as it was.
pub proof fn law_broken_pipe(
    v: Seq<ClientView>,
    client_id: u16,
    ip: Seq<char>,
    port: Seq<char>,
    password: Seq<char>,
    broken_pipe: bool,
)
    ensures
        ({
            let (state, action, change) = session_step_spec(
                SessionState::Connected,
                EventView::WriteFailed(broken_pipe),
                client_id,
                ip,
                port,
                password,
                v,
            );
            &&& state == SessionState::Closed
            &&& action == ActionView::Close
            &&& broken_pipe && has_id(v, client_id) ==> lookup_status(changed(v, change), client_id)
                == 2
            &&& !broken_pipe ==> changed(v, change) == v
        }),
{
    law_lookup_after_status(v, client_id, client_id);
}

// ---------------------------------------------------------------------------
// What the client recognizes of what the server says

/// The client finds its cue in the server's password prompt.
pub proof fn law_client_sees_prompt()
    ensures
        occurs_in(password_prompt_text(), asks_password()),
{
    reveal_strlit("Please send the SENHA:\n");
    reveal_strlit("Please send the SENHA");
    assert(password_prompt_text().subrange(0, 0int + asks_password().len()) =~= asks_password());
}

/// The client finds its cue in the server's reply to a wrong password.
pub proof fn law_client_sees_refusal()
    ensures
        occurs_in(invalid_password_text(), refuses_password()),
{
    reveal_strlit("Invalid password. Closing connection.\n");
    reveal_strlit("Invalid password");
    assert(invalid_password_text().subrange(0, 0int + refuses_password().len())
        =~= refuses_password());
}

/// The client finds its cue in the welcome, and not in the reply to an id that is already
/// connected.
pub proof fn law_client_sees_admission()
    ensures
        occurs_in(welcome_text(), admits_client()),
        !occurs_in(already_connected_text(), admits_client()),
{
    reveal_strlit("Thank you! You are now connected.\n");
    reveal_strlit("You are now connected");
    reveal_strlit("You are now DESconnected.\n");
    let w = welcome_text();
    let a = admits_client();
    assert(w.subrange(11, 11 + a.len() as int) =~= a);
    let d = already_connected_text();
    assert forall|i: int| 0 <= i && i + a.len() <= d.len() implies #[trigger] d.subrange(
        i,
        i + a.len(),
    ) != a by {
        if i == 0 {
            assert(d.subrange(i, i + a.len())[12] != a[12]);
        } else {
            assert(d.subrange(i, i + a.len())[0] != a[0]);
        }
    }
}

/// The client finds its cue in every keep-alive message.
pub proof fn law_client_sees_keep_alive(client_id: u16, counter: u64)
    ensures
        occurs_in(keep_alive_text(client_id, counter), keep_alive_mark()),
{
    reveal_with_fuel(decimal, 3);
    reveal_strlit(": keep alive ");
    reveal_strlit("100:");
    let t = keep_alive_text(client_id, counter);
    assert(decimal(100) =~= seq!['1', '0', '0']);
    assert(t.subrange(0, 0int + keep_alive_mark().len()) =~= keep_alive_mark());
}

/// A client and a server that read the same configuration: the client answers the prompt
/// with the password, and the server admits it (its id not being active) exactly when the
/// configured password has no surrounding whitespace.
pub proof fn law_shared_password(
    v: Seq<ClientView>,
    client_id: u16,
    ip: Seq<char>,
    port: Seq<char>,
    password: Seq<char>,
    id: Seq<char>,
)
    requires
        lookup_status(v, client_id) != 1,
    ensures
        ({
            let (phase, answer) = client_step_spec(
                ClientPhase::AwaitPasswordPrompt,
                password_prompt_text(),
                false,
                password,
                id,
            );
            &&& phase == ClientPhase::AwaitPasswordVerdict
            &&& answer == ClientActionView::Send(trimmed(password))
            &&& session_step_spec(
                SessionState::AwaitingPassword,
                EventView::PasswordReceived(trimmed(password)),
                client_id,
                ip,
                port,
                password,
                v,
            ).0 == (if trimmed(password) == password {
                SessionState::Welcoming
            } else {
                SessionState::Closed
            })
        }),
{
    law_client_sees_prompt();
    lemma_trim_idempotent(password);
}

// ---------------------------------------------------------------------------
// The words of the protocol

/// The status words and the texts the two sides exchange.
pub proof fn law_protocol_words()
    ensures
        active() == "active"@,
        inactive() == "inactive"@,
        password_prompt_text() == "Please send the SENHA:\n"@,
        invalid_password_text() == "Invalid password. Closing connection.\n"@,
        already_connected_text() == "You are now DESconnected.\n"@,
        welcome_text() == "Thank you! You are now connected.\n"@,
        list_command() == "LISTAR"@,
        asks_password() == "Please send the SENHA"@,
        refuses_password() == "Invalid password"@,
        asks_id() == "Password correct. Please send your ID"@,
        admits_client() == "You are now connected"@,
        asks_id_again() == "Please send the ID:"@,
        keep_alive_mark() == "100:"@,
{
    reveal_strlit("active");
    reveal_strlit("inactive");
    assert(active() =~= "active"@);
    assert(inactive() =~= "inactive"@);
}

/// The keep-alive message is `100: keep alive `, a space, the client's id and the counter,
/// both in decimal, separated by a space.
pub proof fn law_keep_alive_text(client_id: u16, counter: u64)
    ensures
        keep_alive_text(client_id, counter) == "100: keep alive  "@ + decimal(client_id as nat) + " "@
            + decimal(counter as nat),
{
    reveal_with_fuel(decimal, 3);
    reveal_strlit(": keep alive ");
    reveal_strlit(" ");
    reveal_strlit("100: keep alive  ");
    assert(decimal(100) =~= seq!['1', '0', '0']);
    assert(decimal(100) + ": keep alive "@ + " "@ =~= "100: keep alive  "@);
    assert(keep_alive_text(client_id, counter) =~= "100: keep alive  "@ + decimal(client_id as nat)
        + " "@ + decimal(counter as nat));
}

// ---------------------------------------------------------------------------
// What the list operations mean

/// Registering a client appends exactly one client, with the given id, ip and port, whose
/// status is `"active"`; the clients before it are kept as they were.
pub proof fn law_save_keeps_fields(v: Seq<ClientView>, id: u16, ip: Seq<char>, port: Seq<char>)
    ensures
        with_new_client(v, id, ip, port).len() == v.len() + 1,
        forall|k: int| 0 <= k < v.len() ==> #[trigger] with_new_client(v, id, ip, port)[k] == v[k],
        with_new_client(v, id, ip, port)[v.len() as int].id == id,
        with_new_client(v, id, ip, port)[v.len() as int].ip == ip,
        with_new_client(v, id, ip, port)[v.len() as int].port == port,
        with_new_client(v, id, ip, port)[v.len() as int].status == "active"@,
{
    law_protocol_words();
}

/// The lookup of an id answers 0 when no client has the id and the status `"active"` or
/// `"inactive"`; otherwise 1 or 2 as the first such client is active or inactive.
pub proof fn law_lookup_meaning(v: Seq<ClientView>, id: u16)
    ensures
        lookup_status(v, id) == 0 <==> !exists|k: int|
            0 <= k < v.len() && v[k].id == id && (v[k].status == "active"@ || v[k].status
                == "inactive"@),
        lookup_status(v, id) != 0 ==> exists|k: int|
            {
                &&& 0 <= k < v.len()
                &&& v[k].id == id
                &&& (v[k].status == "active"@ || v[k].status == "inactive"@)
                &&& (lookup_status(v, id) == 1 <==> v[k].status == "active"@)
                &&& (lookup_status(v, id) == 2 <==> v[k].status == "inactive"@)
                &&& forall|j: int|
                    0 <= j < k ==> !(#[trigger] v[j].id == id && (v[j].status == "active"@
                        || v[j].status == "inactive"@))
            },
{
    law_protocol_words();
    let p = registered_client(id);
    lemma_first_where(v, p);
    if lookup_status(v, id) != 0 {
        let f = first_where(v, p);
        assert(forall|j: int| 0 <= j < f ==> !p(#[trigger] v[j]));
        assert(active() != inactive()) by {
            assert(active().len() != inactive().len());
        }
    } else {
        if exists|k: int|
            0 <= k < v.len() && v[k].id == id && (v[k].status == "active"@ || v[k].status
                == "inactive"@) {
            let k = choose|k: int|
                0 <= k < v.len() && v[k].id == id && (v[k].status == "active"@ || v[k].status
                    == "inactive"@);
            assert(p(v[k]));
        }
    }
}

/// The first inactive id is the id of the first client whose status is `"inactive"`, and
/// 0 where no client is inactive.
pub proof fn law_first_inactive_is_first(v: Seq<ClientView>)
    ensures
        (exists|k: int| 0 <= k < v.len() && v[k].status == "inactive"@) ==> exists|k: int|
            {
                &&& 0 <= k < v.len()
                &&& v[k].status == "inactive"@
                &&& v[k].id == first_inactive_id(v)
                &&& forall|j: int| 0 <= j < k ==> (#[trigger] v[j]).status != "inactive"@
            },
        !(exists|k: int| 0 <= k < v.len() && v[k].status == "inactive"@) ==> first_inactive_id(v)
            == 0,
{
    law_protocol_words();
    law_first_inactive(v);
    let p = inactive_client();
    lemma_first_where(v, p);
    if exists|k: int| 0 <= k < v.len() && v[k].status == "inactive"@ {
        let k = choose|k: int| 0 <= k < v.len() && v[k].status == "inactive"@;
        assert(p(v[k]));
        let f = first_where(v, p);
        assert(forall|j: int| 0 <= j < f ==> !p(#[trigger] v[j]));
    }
}

/// Setting a status changes only the status of the first client with the id, to exactly the
/// given status; every other client and field stays. Without such a client nothing changes.
pub proof fn law_status_update_shape(v: Seq<ClientView>, id: u16, status: Seq<char>, k: int)
    requires
        0 <= k < v.len(),
        v[k].id == id,
        forall|j: int| 0 <= j < k ==> (#[trigger] v[j]).id != id,
    ensures
        with_status(v, id, status).len() == v.len(),
        with_status(v, id, status)[k].status == status,
        with_status(v, id, status)[k].id == v[k].id,
        with_status(v, id, status)[k].ip == v[k].ip,
        with_status(v, id, status)[k].port == v[k].port,
        forall|j: int| 0 <= j < v.len() && j != k ==> #[trigger] with_status(v, id, status)[j] == v[j],
{
    let q = client_with_id(id);
    lemma_first_where(v, q);
    assert(is_first_where(v, q, k));
}

/// Changing a port changes only the port of the first client with the id, to exactly the
/// given port; every other client and field stays.
pub proof fn law_port_update_shape(v: Seq<ClientView>, id: u16, port: Seq<char>, k: int)
    requires
        0 <= k < v.len(),
        v[k].id == id,
        forall|j: int| 0 <= j < k ==> (#[trigger] v[j]).id != id,
    ensures
        with_port(v, id, port).len() == v.len(),
        with_port(v, id, port)[k].port == port,
        with_port(v, id, port)[k].id == v[k].id,
        with_port(v, id, port)[k].ip == v[k].ip,
        with_port(v, id, port)[k].status == v[k].status,
        forall|j: int| 0 <= j < v.len() && j != k ==> #[trigger] with_port(v, id, port)[j] == v[j],
{
    let q = client_with_id(id);
    lemma_first_where(v, q);
    assert(is_first_where(v, q, k));
}

/// With no client carrying the id, neither a status nor a port change does anything.
pub proof fn law_update_without_id(v: Seq<ClientView>, id: u16, text: Seq<char>)
    requires
        forall|j: int| 0 <= j < v.len() ==> (#[trigger] v[j]).id != id,
    ensures
        with_status(v, id, text) == v,
        with_port(v, id, text) == v,
{
    let q = client_with_id(id);
    lemma_first_where(v, q);
    assert(!(exists|k: int| 0 <= k < v.len() && q(v[k])));
}

/// The listing of no clients says so. The listing of any clients, whatever their status, is
/// the header followed by one line per client in order:
/// `ID: {id}, IP: {ip}, Status: {status} Port2: {port}`.
pub proof fn law_listing(v: Seq<ClientView>, c: ClientView)
    ensures
        listing(Seq::empty()) == "No clients connected.\n"@,
        listing(seq![c]) == "Connected clients:\n"@ + ("ID: "@ + decimal(c.id as nat) + ", IP: "@
            + c.ip + ", Status: "@ + c.status + " Port2: "@ + c.port + "\n"@),
        v.len() > 0 ==> listing(v.push(c)) == listing(v) + ("ID: "@ + decimal(c.id as nat)
            + ", IP: "@ + c.ip + ", Status: "@ + c.status + " Port2: "@ + c.port + "\n"@),
        v.len() > 0 ==> listing(v) != "No clients connected.\n"@,
{
    assert(seq![c].drop_last() =~= Seq::<ClientView>::empty());
    assert(client_lines(seq![c]) == client_lines(seq![c].drop_last()) + client_line(seq![c].last()));
    assert(client_lines(Seq::<ClientView>::empty()) == Seq::<char>::empty());
    assert(client_lines(seq![c]) =~= client_line(c));
    assert(v.push(c).drop_last() =~= v);
    if v.len() > 0 {
        assert(listing(v.push(c)) =~= listing(v) + client_line(c));
    }
    if v.len() > 0 {
        reveal_strlit("Connected clients:\n");
        reveal_strlit("No clients connected.\n");
        assert(listing(v)[0] != "No clients connected.\n"@[0]);
    }
}

// ---------------------------------------------------------------------------
// What a session does

/// A session that was welcomed or is connected answers every due keep-alive with the
/// keep-alive message for its id and that counter, is connected afterwards, and leaves the
/// list alone; a failed write ends it.
pub proof fn law_keep_alive_flow(
    v: Seq<ClientView>,
    client_id: u16,
    ip: Seq<char>,
    port: Seq<char>,
    password: Seq<char>,
    counter: u64,
    broken_pipe: bool,
)
    ensures
        session_step_spec(
            SessionState::Connected,
            EventView::KeepAliveDue(counter),
            client_id,
            ip,
            port,
            password,
            v,
        ) == (
            SessionState::Connected,
            ActionView::Send(
                "100: keep alive  "@ + decimal(client_id as nat) + " "@ + decimal(counter as nat),
            ),
            ChangeView::Unchanged,
        ),
        session_step_spec(
            SessionState::Welcoming,
            EventView::KeepAliveDue(counter),
            client_id,
            ip,
            port,
            password,
            v,
        ) == (
            SessionState::Connected,
            ActionView::Send(
                "100: keep alive  "@ + decimal(client_id as nat) + " "@ + decimal(counter as nat),
            ),
            ChangeView::Unchanged,
        ),
        session_step_spec(
            SessionState::Connected,
            EventView::WriteFailed(broken_pipe),
            client_id,
            ip,
            port,
            password,
            v,
        ).0 == SessionState::Closed,
        session_step_spec(
            SessionState::Welcoming,
            EventView::WriteFailed(broken_pipe),
            client_id,
            ip,
            port,
            password,
            v,
        ) == (SessionState::Closed, ActionView::Close, ChangeView::Unchanged),
{
    law_keep_alive_text(client_id, counter);
}

/// On the right password the session asks to register the client with exactly its id, ip
/// and port where its id is unknown, and to make it active again where it is inactive.
pub proof fn law_admission_change(
    v: Seq<ClientView>,
    client_id: u16,
    ip: Seq<char>,
    port: Seq<char>,
    password: Seq<char>,
    text: Seq<char>,
)
    requires
        trimmed(text) == password,
    ensures
        lookup_status(v, client_id) == 0 ==> session_step_spec(
            SessionState::AwaitingPassword,
            EventView::PasswordReceived(text),
            client_id,
            ip,
            port,
            password,
            v,
        ).2 == (ChangeView::Register { id: client_id, ip, port }),
        lookup_status(v, client_id) == 2 ==> session_step_spec(
            SessionState::AwaitingPassword,
            EventView::PasswordReceived(text),
            client_id,
            ip,
            port,
            password,
            v,
        ).2 == (ChangeView::SetStatus { id: client_id, status: "active"@ }),
{
    law_protocol_words();
}

// ---------------------------------------------------------------------------
// What the client does

/// The client's answer to what it reads, phase by phase: it answers the prompt with the
/// trimmed password; it stops after the password only on `Invalid password` and otherwise
/// reads the verdict; it moves to the second port only when admitted; it answers the second
/// prompt with its trimmed id; it logs keep-alives until a stop is asked for.
pub proof fn law_client_flow(received: Seq<char>, stop: bool, password: Seq<char>, id: Seq<char>)
    ensures
        client_step_spec(ClientPhase::AwaitPasswordPrompt, received, stop, password, id) == (
            ClientPhase::AwaitPasswordVerdict,
            if occurs_in(received, "Please send the SENHA"@) {
                ClientActionView::Send(trimmed(password))
            } else {
                ClientActionView::Wait
            },
        ),
        occurs_in(received, "Invalid password"@) ==> client_step_spec(
            ClientPhase::AwaitPasswordVerdict,
            received,
            stop,
            password,
            id,
        ) == (ClientPhase::Done, ClientActionView::Finish),
        !occurs_in(received, "Invalid password"@) ==> client_step_spec(
            ClientPhase::AwaitPasswordVerdict,
            received,
            stop,
            password,
            id,
        ) == (
            ClientPhase::AwaitConnectionVerdict,
            if occurs_in(received, "Password correct. Please send your ID"@) {
                ClientActionView::Send(trimmed(id))
            } else {
                ClientActionView::Wait
            },
        ),
        client_step_spec(ClientPhase::AwaitConnectionVerdict, received, stop, password, id) == if occurs_in(
            received,
            "You are now connected"@,
        ) {
            (ClientPhase::AwaitIdPrompt, ClientActionView::ShutdownAndReconnect)
        } else {
            (ClientPhase::Done, ClientActionView::ShutdownAndFinish)
        },
        client_step_spec(ClientPhase::AwaitIdPrompt, received, stop, password, id) == (
            ClientPhase::ReceivingKeepAlive,
            if occurs_in(received, "Please send the ID:"@) {
                ClientActionView::Send(trimmed(id))
            } else {
                ClientActionView::Wait
            },
        ),
        stop ==> client_step_spec(ClientPhase::ReceivingKeepAlive, received, stop, password, id) == (
            ClientPhase::Done,
            ClientActionView::ShutdownAndFinish,
        ),
        !stop ==> client_step_spec(ClientPhase::ReceivingKeepAlive, received, stop, password, id) == (
            ClientPhase::ReceivingKeepAlive,
            if occurs_in(received, "100:"@) {
                ClientActionView::LogKeepAlive(received)
            } else {
                ClientActionView::Wait
            },
        ),
        client_step_spec(ClientPhase::Done, received, stop, password, id) == (
            ClientPhase::Done,
            ClientActionView::Finish,
        ),
{
    law_protocol_words();
}

/// A status or port change reports success exactly when some client carries the id.
pub proof fn law_has_id(v: Seq<ClientView>, id: u16)
    ensures
        has_id(v, id) <==> exists|k: int| 0 <= k < v.len() && (#[trigger] v[k]).id == id,
{
}

} // verus!
