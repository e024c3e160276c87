use torqle::error::{AppError, ErrorScope, QueryError, TunnelError};

#[test]
fn open_errors_abort_the_opening() {
    for error in [
        TunnelError::InvalidCredentials,
        TunnelError::Transport,
        TunnelError::Timeout,
        TunnelError::KeyLoad,
        TunnelError::Auth,
        TunnelError::AuthFailed,
        TunnelError::Bind,
    ] {
        assert_eq!(error.scope(), ErrorScope::Open);
    }
}

#[test]
fn link_errors_stay_with_the_link() {
    assert_eq!(TunnelError::Channel.scope(), ErrorScope::Link);
    assert_eq!(TunnelError::LinkIo.scope(), ErrorScope::Link);
    assert_eq!(TunnelError::SessionClosed.scope(), ErrorScope::Call);
}

#[test]
fn messages_tell_the_kinds_apart() {
    assert_eq!(TunnelError::Auth.message(), "Failed to authenticate with the jump host");
    assert_eq!(TunnelError::AuthFailed.message(), "Failed to authenticate with the SSH Server");
    assert_eq!(TunnelError::KeyLoad.message(), "Failed to load the SSH key file");
    assert_eq!(TunnelError::Transport.message(), "Failed to connect to the SSH Server");
    assert_eq!(TunnelError::Timeout.message(), "Timed out while connecting to the SSH Server");
    assert_eq!(TunnelError::Bind.message(), "Failed to bind a local port for the tunnel");
    assert_eq!(TunnelError::Channel.message(), "Failed to open a channel to the target host");
    assert_eq!(TunnelError::LinkIo.message(), "Error during bidirectional copy");
    assert_eq!(TunnelError::SessionClosed.message(), "The tunnel is closed");
    assert_eq!(
        TunnelError::InvalidCredentials.message(),
        "No password or key file was given for the SSH Server"
    );
}

#[test]
fn app_error_wraps_what_is_displayed() {
    assert_eq!(AppError::from("boom").error, "boom");
    assert_eq!(AppError::from("Unable to connect: unknown driver!").error, "Unable to connect: unknown driver!");
    assert_eq!(AppError::from(&42).error, "42");
    assert_eq!(AppError::from(&String::from("späť")).message(), "späť");
    assert_eq!(AppError::new("plain").error, "plain");
    assert_eq!(
        AppError::from_tunnel(TunnelError::Auth).error,
        "Failed to authenticate with the jump host"
    );
}

#[test]
fn query_error_wraps_what_is_displayed() {
    assert_eq!(QueryError::from("no such table").error, "no such table");
    assert_eq!(QueryError::from(&7u8), QueryError { error: "7".to_string() });
}
