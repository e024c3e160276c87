use torqle::registry::AppState;

#[test]
fn empty_registry_finds_nothing() {
    let state: AppState<u32> = AppState::new();
    assert_eq!(state.len(), 0);
    let missing = state.get_adapter(&"main".to_string());
    assert_eq!(
        missing.unwrap_err().error,
        "Unable to get_adapter. No connection bound to the window!"
    );
}

#[test]
fn set_then_get_finds_the_adapter() {
    let mut state: AppState<&str> = AppState::new();
    assert!(state.set_adapter("main".to_string(), "mysql"));
    assert!(state.set_adapter("second".to_string(), "sqlite"));
    assert_eq!(state.get_adapter(&"main".to_string()).unwrap(), &"mysql");
    assert_eq!(state.get_adapter(&"second".to_string()).unwrap(), &"sqlite");
    assert!(state.get_adapter(&"third".to_string()).is_err());
    assert_eq!(state.len(), 2);
}

#[test]
fn set_replaces_the_adapter_of_a_window() {
    let mut state: AppState<u32> = AppState::new();
    state.set_adapter("main".to_string(), 1);
    state.set_adapter("other".to_string(), 2);
    state.set_adapter("main".to_string(), 3);
    assert_eq!(state.get_adapter(&"main".to_string()).unwrap(), &3);
    assert_eq!(state.get_adapter(&"other".to_string()).unwrap(), &2);
    assert_eq!(state.len(), 2);
}

#[test]
fn remove_hands_the_adapter_out_once() {
    let mut state: AppState<String> = AppState::new();
    state.set_adapter("main".to_string(), "pool".to_string());
    state.set_adapter("other".to_string(), "file".to_string());
    assert_eq!(state.remove_adapter(&"main".to_string()).unwrap(), "pool");
    assert_eq!(
        state.remove_adapter(&"main".to_string()).unwrap_err().error,
        "Unable to remove_adapter. No connection bound to the window!"
    );
    assert!(state.get_adapter(&"main".to_string()).is_err());
    assert_eq!(state.get_adapter(&"other".to_string()).unwrap(), "file");
    assert_eq!(state.len(), 1);
}

#[test]
fn labels_are_compared_exactly() {
    let mut state: AppState<u8> = AppState::new();
    state.set_adapter("Main".to_string(), 1);
    assert!(state.get_adapter(&"main".to_string()).is_err());
    assert!(state.get_adapter(&"Main ".to_string()).is_err());
    assert!(state.get_adapter(&"".to_string()).is_err());
    state.set_adapter("".to_string(), 2);
    assert_eq!(state.get_adapter(&"".to_string()).unwrap(), &2);
}
