use torqle::connectors::{use_statement, Drivers, Sqlite};
use torqle::keyed::{Entry, Keyed};

fn entry(key: &str, value: &str) -> Entry<String> {
    Entry { key: key.to_string(), value: value.to_string() }
}

#[test]
fn drivers_are_told_apart() {
    assert_ne!(Drivers::Mysql, Drivers::Sqlite);
    assert_ne!(Drivers::Postgres, Drivers::Mongodb);
}

#[test]
fn connection_keeps_its_options() {
    let connection =
        Sqlite::connect(&vec![entry("host", "db"), entry("user", "root"), entry("host", "db2")]);
    assert_eq!(connection.get_opt(&"host".to_string()), Some("db2".to_string()));
    assert_eq!(connection.get_opt(&"user".to_string()), Some("root".to_string()));
    assert_eq!(connection.get_opt(&"password".to_string()), None);
}

#[test]
fn options_can_be_set_and_read() {
    let mut connection = Sqlite::connect(&vec![]);
    assert_eq!(connection.get_opt(&"db_name".to_string()), None);
    assert!(connection.set_opt("db_name".to_string(), "chinook".to_string()));
    assert_eq!(connection.get_opt(&"db_name".to_string()), Some("chinook".to_string()));
    assert!(connection.set_opt("db_name".to_string(), "northwind".to_string()));
    assert_eq!(connection.get_opt(&"db_name".to_string()), Some("northwind".to_string()));
    assert!(connection.disconnect());
    assert_eq!(connection.get_opt(&"db_name".to_string()), Some("northwind".to_string()));
}

#[test]
fn queries_run_in_the_chosen_schema() {
    let mut connection = Sqlite::connect(&vec![entry("user", "root")]);
    assert_eq!(
        connection.statements("SELECT * FROM albums LIMIT 10".to_string()),
        vec!["SELECT * FROM albums LIMIT 10".to_string()]
    );
    assert!(connection.change_schema("chinook".to_string()));
    assert_eq!(
        connection.statements("SELECT NOW()".to_string()),
        vec!["USE chinook".to_string(), "SELECT NOW()".to_string()]
    );
}

#[test]
fn use_statement_names_the_database() {
    assert_eq!(use_statement("chinook"), "USE chinook");
}

#[test]
fn keyed_store_holds_one_value_per_key() {
    let mut store: Keyed<u8> = Keyed::new();
    assert_eq!(store.len(), 0);
    store.insert("a".to_string(), 1);
    store.insert("b".to_string(), 2);
    store.insert("a".to_string(), 3);
    assert_eq!(store.len(), 2);
    assert_eq!(store.get(&"a".to_string()), Some(&3));
    assert_eq!(store.remove(&"a".to_string()), Some(3));
    assert_eq!(store.remove(&"a".to_string()), None);
    assert_eq!(store.get(&"a".to_string()), None);
    assert_eq!(store.get(&"b".to_string()), Some(&2));
    assert_eq!(store.len(), 1);
}
