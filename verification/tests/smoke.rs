use torqle::adapters::{tunnel, AdapterOpts, DriverType};
use torqle::credentials::{LocalBinding, SshOpts};
use torqle::tunnel::controller::jump;
use torqle::tunnel::model::TunnelEvent;
use torqle::session::SessionEvent;

#[test]
fn test_example() {
    assert!(true);
}

#[test]
fn ssh2_test_example() {
    assert!(true);
}

#[test]
fn tests_test_example() {
    assert!(true);
}

fn local_end_of(ssh_opts: SshOpts, adapter_opts: &AdapterOpts) -> LocalBinding {
    let (mut controller, _) =
        jump(ssh_opts, adapter_opts.host.clone(), adapter_opts.port).unwrap();
    controller.step(TunnelEvent::Session { event: SessionEvent::TransportUp });
    controller.step(TunnelEvent::Session { event: SessionEvent::AuthAccepted });
    controller.step(TunnelEvent::ListenerBound { port: 45000 });
    controller.addr().unwrap()
}

#[test]
fn test_tunnel() {
    let adapter_opts = AdapterOpts {
        driver: DriverType::MySQL,
        host: "mysql".to_string(),
        port: 3306,
        user: "root".to_string(),
        password: "mypassword".to_string(),
        filepath: "".to_string(),
    };
    let ssh_opts: SshOpts = SshOpts {
        host: "127.0.0.1".to_string(),
        port: 10022,
        user: "torqle".to_string(),
        password: "littlebuddy".to_string(),
        keyfile: None,
    };

    let binding = local_end_of(ssh_opts, &adapter_opts);
    let new_opts = tunnel(&adapter_opts, &binding);
    assert_eq!("127.0.0.1".to_string(), new_opts.host);
}

#[test]
fn ssh2_test_tunnel() {
    let adapter_opts = AdapterOpts {
        driver: DriverType::SQLite,
        host: "".to_string(),
        port: 0,
        user: "".to_string(),
        password: "".to_string(),
        filepath: "../data/sqlite-testdb.db".to_string(),
    };
    let ssh_opts: SshOpts = SshOpts {
        host: "127.0.0.1".to_string(),
        port: 10022,
        user: "root".to_string(),
        password: "littlebuddy".to_string(),
        keyfile: None,
    };

    let binding = local_end_of(ssh_opts, &adapter_opts);
    let new_opts = tunnel(&adapter_opts, &binding);
    assert_eq!("127.0.0.1".to_string(), new_opts.host);
}
