use torqle::host_key::{same_bytes, HostKeyPolicy, SshHandler};

#[test]
fn accept_any_accepts_every_key() {
    let handler = SshHandler::new(HostKeyPolicy::AcceptAny);
    assert!(handler.check_server_key(&[]));
    assert!(handler.check_server_key(&[1, 2, 3]));
}

#[test]
fn pinned_accepts_listed_keys_only() {
    let handler =
        SshHandler::new(HostKeyPolicy::Pinned { keys: vec![vec![1, 2, 3], vec![9, 9]] });
    assert!(handler.check_server_key(&[1, 2, 3]));
    assert!(handler.check_server_key(&[9, 9]));
    assert!(!handler.check_server_key(&[1, 2]));
    assert!(!handler.check_server_key(&[1, 2, 3, 4]));
    assert!(!handler.check_server_key(&[1, 2, 4]));
    assert!(!handler.check_server_key(&[]));
}

#[test]
fn pinned_to_nothing_accepts_nothing() {
    let handler = SshHandler::new(HostKeyPolicy::Pinned { keys: vec![] });
    assert!(!handler.check_server_key(&[1]));
    assert!(!handler.check_server_key(&[]));
}

#[test]
fn same_bytes_compares_content() {
    assert!(same_bytes(&[], &[]));
    assert!(same_bytes(&[0, 255], &[0, 255]));
    assert!(!same_bytes(&[0, 255], &[0, 254]));
    assert!(!same_bytes(&[0], &[0, 0]));
}
