use client_server::registry::{
    _update_client_port, find_client_by_id, find_first_inactive, list_connected_clients,
    save_client_data, update_client_status, ClientData,
};

fn client(id: u16, status: &str) -> ClientData {
    ClientData {
        id,
        ip: "10.0.0.1".to_string(),
        status: status.to_string(),
        port: "4000".to_string(),
    }
}

#[test]
fn save_appends_an_active_client() {
    let mut clients = Vec::new();
    save_client_data(&mut clients, 1000, "10.0.0.5".to_string(), "5001".to_string());
    assert_eq!(clients.len(), 1);
    assert_eq!(clients[0].id, 1000);
    assert_eq!(clients[0].ip, "10.0.0.5");
    assert_eq!(clients[0].status, "active");
    assert_eq!(clients[0].port, "5001");
}

#[test]
fn lookup_after_save_says_active() {
    let mut clients = Vec::new();
    assert_eq!(find_client_by_id(&clients, 1000), 0);
    save_client_data(&mut clients, 1000, "a".to_string(), "1".to_string());
    assert_eq!(find_client_by_id(&clients, 1000), 1);
    assert_eq!(find_client_by_id(&clients, 1010), 0);
}

#[test]
fn lookup_reads_first_known_status() {
    let clients = vec![client(5, "other"), client(5, "inactive"), client(5, "active")];
    assert_eq!(find_client_by_id(&clients, 5), 2);
    let clients = vec![client(5, "active"), client(5, "inactive")];
    assert_eq!(find_client_by_id(&clients, 5), 1);
    let clients = vec![client(5, "other")];
    assert_eq!(find_client_by_id(&clients, 5), 0);
}

#[test]
fn first_inactive_id_or_zero() {
    assert_eq!(find_first_inactive(&Vec::new()), 0);
    let clients = vec![client(1, "active"), client(2, "inactive"), client(3, "inactive")];
    assert_eq!(find_first_inactive(&clients), 2);
    let clients = vec![client(1, "active")];
    assert_eq!(find_first_inactive(&clients), 0);
}

#[test]
fn status_update_then_lookup() {
    let mut clients = vec![client(1, "active"), client(2, "active"), client(2, "active")];
    assert!(update_client_status(&mut clients, 2, "inactive"));
    assert_eq!(clients[1].status, "inactive");
    assert_eq!(clients[2].status, "active");
    assert_eq!(find_client_by_id(&clients, 2), 2);
    assert_eq!(find_client_by_id(&clients, 1), 1);
    assert_eq!(find_first_inactive(&clients), 2);
    assert!(update_client_status(&mut clients, 2, "active"));
    assert_eq!(find_client_by_id(&clients, 2), 1);
    assert!(!update_client_status(&mut clients, 9, "inactive"));
    assert_eq!(clients.len(), 3);
}

#[test]
fn port_update_changes_only_the_port() {
    let mut clients = vec![client(1, "inactive"), client(2, "active")];
    assert!(_update_client_port(&mut clients, 2, "6000"));
    assert_eq!(clients[1].port, "6000");
    assert_eq!(clients[0].port, "4000");
    assert_eq!(find_client_by_id(&clients, 2), 1);
    assert_eq!(find_first_inactive(&clients), 1);
    assert!(!_update_client_port(&mut clients, 3, "7000"));
}

#[test]
fn listing_of_no_clients() {
    assert_eq!(list_connected_clients(&Vec::new()), "No clients connected.\n");
}

#[test]
fn listing_of_clients() {
    let clients = vec![client(1000, "active"), client(1010, "inactive")];
    assert_eq!(
        list_connected_clients(&clients),
        "Connected clients:\n\
         ID: 1000, IP: 10.0.0.1, Status: active Port2: 4000\n\
         ID: 1010, IP: 10.0.0.1, Status: inactive Port2: 4000\n"
    );
}
