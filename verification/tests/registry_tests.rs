//! Connection registry tests: admission, removal, broadcast fan-out.

use futures_channel::mpsc::{unbounded, UnboundedReceiver};
use suiperchat_core::registry::{ClientInfo, ConnectionManager, get_connections_count};

fn client(id: &str) -> ClientInfo {
    ClientInfo::new(id.to_string(), "127.0.0.1".to_string(), "2024-01-01T00:00:00Z".to_string())
}

fn add(mgr: &mut ConnectionManager, id: &str) -> UnboundedReceiver<String> {
    let (tx, rx) = unbounded::<String>();
    assert!(mgr.add_client(client(id), tx));
    rx
}

#[test]
fn admission_counter_tracks_entries() {
    let mut mgr = ConnectionManager::new(2);
    assert_eq!(get_connections_count(&mgr), 0);
    let _rx1 = add(&mut mgr, "a");
    assert_eq!(get_connections_count(&mgr), 1);
    let _rx2 = add(&mut mgr, "b");
    assert_eq!(get_connections_count(&mgr), 2);

    // at the limit, admission is refused and nothing changes
    let (tx3, _rx3) = unbounded::<String>();
    assert!(!mgr.add_client(client("c"), tx3));
    assert_eq!(get_connections_count(&mgr), 2);
    assert_eq!(mgr.get_connections_info().clients.len(), 2);

    // removal frees a slot; removing twice reports the second as absent
    assert!(mgr.remove_client("a"));
    assert_eq!(get_connections_count(&mgr), 1);
    assert!(!mgr.remove_client("a"));
    assert_eq!(get_connections_count(&mgr), 1);

    let (tx4, _rx4) = unbounded::<String>();
    assert!(mgr.add_client(client("c"), tx4));
    assert_eq!(get_connections_count(&mgr), 2);
}

#[test]
fn duplicate_ids_are_refused() {
    let mut mgr = ConnectionManager::new(10);
    let _rx = add(&mut mgr, "same");
    let (tx, _rx2) = unbounded::<String>();
    assert!(!mgr.add_client(client("same"), tx));
    assert_eq!(get_connections_count(&mgr), 1);
}

#[test]
fn broadcast_reaches_every_registered_client() {
    let mut mgr = ConnectionManager::new(10);
    let mut rx1 = add(&mut mgr, "a");
    let mut rx2 = add(&mut mgr, "b");
    let mut rx3 = add(&mut mgr, "c");

    let attempts = mgr.broadcast("hello");
    assert_eq!(attempts, 3);
    assert_eq!(rx1.try_next().unwrap(), Some("hello".to_string()));
    assert_eq!(rx2.try_next().unwrap(), Some("hello".to_string()));
    assert_eq!(rx3.try_next().unwrap(), Some("hello".to_string()));
}

#[test]
fn broadcast_survives_a_dropped_client() {
    let mut mgr = ConnectionManager::new(10);
    let rx1 = add(&mut mgr, "a");
    let mut rx2 = add(&mut mgr, "b");
    // the first client's receiver is gone mid-session; delivery to it
    // fails but the second still gets the payload
    drop(rx1);
    let attempts = mgr.broadcast("payload");
    assert_eq!(attempts, 2);
    assert_eq!(rx2.try_next().unwrap(), Some("payload".to_string()));
}

#[test]
fn update_client_counts_messages() {
    let mut mgr = ConnectionManager::new(10);
    let _rx = add(&mut mgr, "a");
    assert!(mgr.update_client("a", "2024-01-01T00:00:05Z"));
    assert!(mgr.update_client("a", "2024-01-01T00:00:06Z"));
    assert!(!mgr.update_client("ghost", "2024-01-01T00:00:07Z"));
    let info = mgr.get_client("a").expect("the client is registered");
    assert_eq!(info.messages_sent, 2);
    assert_eq!(info.last_active, "2024-01-01T00:00:06Z");
    assert_eq!(info.connected_at, "2024-01-01T00:00:00Z");
    assert!(mgr.get_client("ghost").is_none());
}

#[test]
fn snapshot_and_limits() {
    let mut mgr = ConnectionManager::new(5);
    let _rx = add(&mut mgr, "a");
    let info = mgr.get_connections_info();
    assert_eq!(info.active_connections, 1);
    assert_eq!(info.max_connections, 5);
    assert_eq!(info.clients.len(), 1);
    assert_eq!(info.clients[0].id, "a");

    mgr.set_max_connections(1);
    assert_eq!(mgr.get_max_connections(), 1);
    let (tx, _rx2) = unbounded::<String>();
    assert!(!mgr.add_client(client("b"), tx));
}

#[test]
fn connection_limits_must_be_at_least_one() {
    let mut mgr = ConnectionManager::new(5);
    match suiperchat_core::registry::set_connection_limits(&mut mgr, 0) {
        Err(e) => assert_eq!(e, "最大接続数は1以上である必要があります"),
        Ok(_) => panic!("a zero limit must be refused"),
    }
    assert_eq!(mgr.get_max_connections(), 5);
    suiperchat_core::registry::set_connection_limits(&mut mgr, 3).expect("a positive limit is set");
    assert_eq!(mgr.get_max_connections(), 3);
}

#[test]
fn client_info_counters() {
    let mut info = client("x");
    assert_eq!(info.messages_sent, 0);
    info.increment_messages();
    info.increment_messages();
    assert_eq!(info.messages_sent, 2);
    info.update_activity("2024-02-02T00:00:00Z");
    assert_eq!(info.last_active, "2024-02-02T00:00:00Z");
}
