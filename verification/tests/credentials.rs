use torqle::credentials::{
    AuthMethod, LocalBinding, SshCredentials, SshOpts, TargetEndpoint,
};
use torqle::error::TunnelError;

fn opts(keyfile: Option<&str>, password: &str) -> SshOpts {
    SshOpts {
        host: "jump.example".to_string(),
        keyfile: keyfile.map(|path| path.to_string()),
        password: password.to_string(),
        port: 2222,
        user: "torqle".to_string(),
    }
}

#[test]
fn password_without_keyfile_is_submitted() {
    assert_eq!(
        opts(None, "littlebuddy").auth_method(),
        Ok(AuthMethod::Password { secret: "littlebuddy".to_string() })
    );
}

#[test]
fn keyfile_takes_the_password_as_passphrase() {
    assert_eq!(
        opts(Some("/keys/id_rsa"), "littlebuddy").auth_method(),
        Ok(AuthMethod::PrivateKey {
            path: "/keys/id_rsa".to_string(),
            passphrase: Some("littlebuddy".to_string())
        })
    );
}

#[test]
fn keyfile_with_empty_password_has_no_passphrase() {
    assert_eq!(
        opts(Some("/keys/id_rsa"), "").auth_method(),
        Ok(AuthMethod::PrivateKey { path: "/keys/id_rsa".to_string(), passphrase: None })
    );
}

#[test]
fn neither_keyfile_nor_password_is_an_error() {
    assert_eq!(opts(None, "").auth_method(), Err(TunnelError::InvalidCredentials));
    assert_eq!(
        SshCredentials::resolve(&opts(None, "")).err(),
        Some(TunnelError::InvalidCredentials)
    );
}

#[test]
fn credentials_keep_host_port_and_user() {
    let resolved = SshCredentials::resolve(&opts(None, "littlebuddy")).unwrap();
    assert_eq!(
        resolved,
        SshCredentials {
            host: "jump.example".to_string(),
            port: 2222,
            user: "torqle".to_string(),
            auth_method: AuthMethod::Password { secret: "littlebuddy".to_string() },
        }
    );
    assert_eq!(resolved.clone(), resolved);
}

#[test]
fn default_options_are_empty() {
    assert_eq!(
        SshOpts::default(),
        SshOpts {
            host: String::new(),
            keyfile: None,
            password: String::new(),
            port: 0,
            user: String::new()
        }
    );
}

#[test]
fn options_clone_equal() {
    let given = opts(Some("/keys/id_rsa"), "pw");
    assert_eq!(given.clone(), given);
    let endpoint = TargetEndpoint { host: "db".to_string(), port: 70000 };
    assert_eq!(endpoint.clone(), endpoint);
}

#[test]
fn binding_needs_a_port() {
    assert_eq!(LocalBinding::bound(0), None);
    let binding = LocalBinding::bound(1).unwrap();
    assert_eq!(binding.port(), 1);
    assert_eq!(LocalBinding::bound(65535).unwrap().port(), 65535);
    assert_eq!(binding.address(), "127.0.0.1");
}
