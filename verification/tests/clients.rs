use wallguard_server::clients::{Manager, ManagerError};

#[test]
fn connect_then_connected() {
    let mut m: Manager<u32> = Manager::new();
    assert!(!m.is_client_connected("dev1"));
    assert_eq!(m.on_client_connected(String::from("dev1"), 7), Ok(()));
    assert!(m.is_client_connected("dev1"));
    assert!(!m.is_client_connected("dev2"));
    assert_eq!(m.force_heartbeat("dev1"), Ok(&7));
}

#[test]
fn second_connection_is_refused_and_changes_nothing() {
    let mut m: Manager<u32> = Manager::new();
    assert_eq!(m.on_client_connected(String::from("dev1"), 1), Ok(()));
    assert_eq!(
        m.on_client_connected(String::from("dev1"), 2),
        Err(ManagerError::AlreadyConnected)
    );
    assert_eq!(m.force_heartbeat("dev1"), Ok(&1));
}

#[test]
fn disconnect_undoes_connect() {
    let mut m: Manager<u32> = Manager::new();
    m.on_client_connected(String::from("a"), 1).unwrap();
    m.on_client_connected(String::from("b"), 2).unwrap();
    m.on_client_disconnected("a");
    assert!(!m.is_client_connected("a"));
    assert!(m.is_client_connected("b"));
    assert_eq!(m.force_heartbeat("b"), Ok(&2));
    assert_eq!(m.force_heartbeat("a"), Err(ManagerError::NotConnected));
    assert_eq!(m.on_client_connected(String::from("a"), 3), Ok(()));
    assert_eq!(m.force_heartbeat("a"), Ok(&3));
}

#[test]
fn disconnect_of_unknown_device_changes_nothing() {
    let mut m: Manager<u32> = Manager::new();
    m.on_client_connected(String::from("a"), 1).unwrap();
    m.on_client_disconnected("zzz");
    assert_eq!(m.force_heartbeat("a"), Ok(&1));
}

#[test]
fn force_heartbeat_of_unknown_device() {
    let m: Manager<u32> = Manager::new();
    assert_eq!(m.force_heartbeat("x"), Err(ManagerError::NotConnected));
}
