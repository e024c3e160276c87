use torqle::adapters::mysql::{connect, MySqlParams};
use torqle::adapters::result::QueryResult;
use torqle::adapters::rows::{
    parse_row, parse_value, sqlite_kind, Column, JsonCell, SqlValue, SqliteKind,
};
use torqle::adapters::{
    connect_adapter, tunnel, tunnel_target, AdapterOpts, AdapterPlan, DriverType,
};
use torqle::credentials::{LocalBinding, SshOpts, TargetEndpoint};
use torqle::keyed::{Entry, Keyed};

fn mysql_opts() -> AdapterOpts {
    AdapterOpts {
        driver: DriverType::MySQL,
        host: "mysql".to_string(),
        port: 3306,
        user: "root".to_string(),
        password: "mypassword".to_string(),
        ..AdapterOpts::default()
    }
}

fn ssh_opts() -> SshOpts {
    SshOpts {
        host: "127.0.0.1".to_string(),
        port: 10022,
        user: "torqle".to_string(),
        password: "littlebuddy".to_string(),
        keyfile: None,
    }
}

fn text(value: &str) -> JsonCell {
    JsonCell::Text { text: value.to_string() }
}

fn date(year: u16, month: u8, day: u8, hour: u8, minute: u8, second: u8, micros: u32) -> SqlValue {
    SqlValue::Date { year, month, day, hour, minute, second, micros }
}

#[test]
fn default_options_name_no_driver() {
    let opts = AdapterOpts::default();
    assert_eq!(opts.driver, DriverType::Unset);
    assert_eq!(DriverType::default(), DriverType::Unset);
    assert_eq!(opts.host, "");
    assert_eq!(opts.port, 0);
    assert_eq!(opts.filepath, "");
}

#[test]
fn tunnel_points_options_at_the_local_end() {
    let binding = LocalBinding::bound(40123).unwrap();
    let through = tunnel(&mysql_opts(), &binding);
    assert_eq!(
        through,
        AdapterOpts { host: "127.0.0.1".to_string(), port: 40123, ..mysql_opts() }
    );
}

#[test]
fn tunnel_target_is_the_database_itself() {
    assert_eq!(
        tunnel_target(&mysql_opts()),
        TargetEndpoint { host: "mysql".to_string(), port: 3306 }
    );
}

#[test]
fn ssh_options_ask_for_a_tunnel_first() {
    assert_eq!(
        connect_adapter(mysql_opts(), Some(ssh_opts())),
        Ok(AdapterPlan::OpenTunnel {
            ssh_opts: ssh_opts(),
            target: TargetEndpoint { host: "mysql".to_string(), port: 3306 },
            opts: mysql_opts()
        })
    );
    // The jump host comes first even where no adapter exists for the driver.
    let unknown = AdapterOpts { driver: DriverType::MongoDB, ..mysql_opts() };
    assert!(matches!(
        connect_adapter(unknown, Some(ssh_opts())),
        Ok(AdapterPlan::OpenTunnel { .. })
    ));
}

#[test]
fn mysql_connects_over_tcp() {
    assert_eq!(
        connect_adapter(mysql_opts(), None),
        Ok(AdapterPlan::MySql {
            params: MySqlParams {
                host: "mysql".to_string(),
                port: 3306,
                user: "root".to_string(),
                password: "mypassword".to_string(),
                prefer_socket: false
            }
        })
    );
}

#[test]
fn mysql_port_keeps_its_low_sixteen_bits() {
    assert_eq!(connect(AdapterOpts { port: 65535, ..mysql_opts() }).port, 65535);
    assert_eq!(connect(AdapterOpts { port: 65536, ..mysql_opts() }).port, 0);
    assert_eq!(connect(AdapterOpts { port: 65536 + 3306, ..mysql_opts() }).port, 3306);
    assert_eq!(connect(AdapterOpts { port: u32::MAX, ..mysql_opts() }).port, 65535);
}

#[test]
fn sqlite_connects_to_its_file() {
    let opts = AdapterOpts {
        driver: DriverType::SQLite,
        filepath: "../data/sqlite-testdb.db".to_string(),
        ..AdapterOpts::default()
    };
    assert_eq!(
        connect_adapter(opts, None),
        Ok(AdapterPlan::Sqlite { filepath: "../data/sqlite-testdb.db".to_string() })
    );
}

#[test]
fn other_drivers_have_no_adapter() {
    for driver in [DriverType::PostgreSQL, DriverType::MongoDB, DriverType::Unset] {
        let refused = connect_adapter(AdapterOpts { driver, ..mysql_opts() }, None);
        assert_eq!(refused.unwrap_err().error, "Unable to connect: unknown driver!");
    }
}

#[test]
fn connecting_through_a_tunnel_takes_two_steps() {
    let plan = connect_adapter(mysql_opts(), Some(ssh_opts())).unwrap();
    let opts = match plan {
        AdapterPlan::OpenTunnel { opts, .. } => opts,
        other => panic!("no tunnel asked for: {:?}", other),
    };
    let binding = LocalBinding::bound(40123).unwrap();
    match connect_adapter(tunnel(&opts, &binding), None).unwrap() {
        AdapterPlan::MySql { params } => {
            assert_eq!(params.host, "127.0.0.1");
            assert_eq!(params.port, 40123);
            assert_eq!(params.user, "root");
            assert_eq!(params.password, "mypassword");
        }
        other => panic!("not MySQL: {:?}", other),
    }
}

#[test]
fn plain_values_pass_as_they_are() {
    assert_eq!(parse_value(&SqlValue::Null), JsonCell::Null);
    assert_eq!(parse_value(&SqlValue::Int { signed: -5 }), JsonCell::Int { signed: -5 });
    assert_eq!(
        parse_value(&SqlValue::UInt { unsigned: u64::MAX }),
        JsonCell::UInt { unsigned: u64::MAX }
    );
    assert_eq!(
        parse_value(&SqlValue::Bytes { bytes: b"Let There Be Rock".to_vec() }),
        JsonCell::Utf8 { bytes: b"Let There Be Rock".to_vec() }
    );
    let half = 0.5f32.to_bits();
    assert_eq!(parse_value(&SqlValue::Float { single: half }), JsonCell::Float { single: half });
    let third = (1.0f64 / 3.0).to_bits();
    assert_eq!(parse_value(&SqlValue::Double { double: third }), JsonCell::Double { double: third });
}

#[test]
fn date_at_midnight_is_a_plain_date() {
    assert_eq!(parse_value(&date(2024, 1, 5, 0, 0, 0, 0)), text("2024-1-5"));
    assert_eq!(parse_value(&date(1999, 12, 31, 0, 0, 0, 0)), text("1999-12-31"));
    // Nothing checks a plain date: the zero date of MySQL passes too.
    assert_eq!(parse_value(&date(0, 0, 0, 0, 0, 0, 0)), text("0-0-0"));
    assert_eq!(parse_value(&date(65535, 255, 255, 0, 0, 0, 0)), text("65535-255-255"));
}

#[test]
fn date_with_time_is_a_moment_in_utc() {
    assert_eq!(parse_value(&date(2024, 1, 5, 13, 7, 9, 0)), text("2024-01-05T13:07:09+00:00"));
    assert_eq!(parse_value(&date(1996, 12, 19, 16, 39, 57, 0)), text("1996-12-19T16:39:57+00:00"));
    assert_eq!(parse_value(&date(2024, 2, 29, 23, 59, 59, 0)), text("2024-02-29T23:59:59+00:00"));
    assert_eq!(parse_value(&date(2000, 2, 29, 0, 0, 1, 0)), text("2000-02-29T00:00:01+00:00"));
    assert_eq!(parse_value(&date(987, 6, 5, 4, 3, 2, 0)), text("0987-06-05T04:03:02+00:00"));
    assert_eq!(parse_value(&date(0, 1, 1, 0, 1, 0, 0)), text("0000-01-01T00:01:00+00:00"));
    assert_eq!(parse_value(&date(9999, 12, 31, 23, 0, 0, 0)), text("9999-12-31T23:00:00+00:00"));
}

#[test]
fn microseconds_alone_make_a_moment_and_are_dropped() {
    assert_eq!(parse_value(&date(2024, 1, 5, 0, 0, 0, 250)), text("2024-01-05T00:00:00+00:00"));
}

#[test]
fn years_beyond_four_digits_carry_a_sign() {
    assert_eq!(parse_value(&date(10000, 1, 1, 0, 0, 1, 0)), text("+10000-01-01T00:00:01+00:00"));
    assert_eq!(parse_value(&date(65535, 12, 31, 1, 2, 3, 0)), text("+65535-12-31T01:02:03+00:00"));
}

#[test]
fn moments_that_do_not_exist_are_invalid() {
    for value in [
        date(2023, 2, 29, 1, 0, 0, 0),
        date(1900, 2, 29, 1, 0, 0, 0),
        date(2024, 4, 31, 1, 0, 0, 0),
        date(2024, 0, 10, 1, 0, 0, 0),
        date(2024, 13, 10, 1, 0, 0, 0),
        date(2024, 1, 0, 1, 0, 0, 0),
        date(2024, 1, 32, 1, 0, 0, 0),
        date(2024, 1, 5, 24, 0, 0, 0),
        date(2024, 1, 5, 1, 60, 0, 0),
        date(2024, 1, 5, 1, 0, 60, 0),
        date(0, 0, 0, 0, 0, 1, 0),
    ] {
        assert_eq!(parse_value(&value), text("Invalid DateTime"), "{:?}", value);
    }
}

#[test]
fn time_of_day_is_always_invalid() {
    for (hours, minutes, seconds) in [(0, 0, 0), (12, 34, 56), (23, 59, 59), (99, 99, 99)] {
        let value = SqlValue::Time {
            negative: false,
            days: 0,
            hours,
            minutes,
            seconds,
            micros: 0,
        };
        assert_eq!(parse_value(&value), text("Invalid Time"));
    }
}

fn cells(row: Keyed<JsonCell>) -> Vec<(String, JsonCell)> {
    row.into_entries().into_iter().map(|Entry { key, value }| (key, value)).collect()
}

fn named(name: &str, value: JsonCell) -> (String, JsonCell) {
    (name.to_string(), value)
}

#[test]
fn row_holds_a_value_under_each_column() {
    let row = vec![
        Column { name: "AlbumId".to_string(), value: SqlValue::Int { signed: 1 } },
        Column { name: "Title".to_string(), value: SqlValue::Bytes { bytes: b"Facelift".to_vec() } },
        Column { name: "Released".to_string(), value: date(1990, 8, 21, 0, 0, 0, 0) },
        Column { name: "Missing".to_string(), value: SqlValue::Null },
    ];
    let fields = parse_row(&row);
    assert_eq!(fields.len(), 4);
    assert_eq!(fields.get(&"AlbumId".to_string()), Some(&JsonCell::Int { signed: 1 }));
    assert_eq!(
        fields.get(&"Title".to_string()),
        Some(&JsonCell::Utf8 { bytes: b"Facelift".to_vec() })
    );
    assert_eq!(fields.get(&"Released".to_string()), Some(&text("1990-8-21")));
    assert_eq!(fields.get(&"Missing".to_string()), Some(&JsonCell::Null));
    assert_eq!(fields.get(&"Artist".to_string()), None);
    assert_eq!(parse_row(&vec![]).len(), 0);
}

#[test]
fn last_column_of_a_name_wins() {
    let row = vec![
        Column { name: "id".to_string(), value: SqlValue::Int { signed: 1 } },
        Column { name: "name".to_string(), value: SqlValue::Null },
        Column { name: "id".to_string(), value: SqlValue::Int { signed: 2 } },
        Column { name: "id".to_string(), value: SqlValue::UInt { unsigned: 3 } },
    ];
    let fields = parse_row(&row);
    assert_eq!(fields.len(), 2);
    assert_eq!(fields.get(&"id".to_string()), Some(&JsonCell::UInt { unsigned: 3 }));
    assert_eq!(fields.get(&"name".to_string()), Some(&JsonCell::Null));
    assert_eq!(fields.keys(), vec!["id".to_string(), "name".to_string()]);
}

#[test]
fn sqlite_types_are_told_by_name() {
    assert_eq!(sqlite_kind("NULL"), SqliteKind::Null);
    assert_eq!(sqlite_kind("INTEGER"), SqliteKind::Integer);
    assert_eq!(sqlite_kind("TEXT"), SqliteKind::Text);
    assert_eq!(sqlite_kind("REAL"), SqliteKind::Real);
    assert_eq!(sqlite_kind("BLOB"), SqliteKind::Undecoded);
    assert_eq!(sqlite_kind("integer"), SqliteKind::Undecoded);
    assert_eq!(sqlite_kind(""), SqliteKind::Undecoded);
}

fn row_of(fields: &[(&str, i64)]) -> Keyed<JsonCell> {
    let mut row = Keyed::new();
    for (name, value) in fields {
        row.insert(name.to_string(), JsonCell::Int { signed: *value });
    }
    row
}

#[test]
fn result_counts_rows_and_names_fields() {
    let rows = vec![
        row_of(&[("id", 1), ("n", 10)]),
        row_of(&[("id", 2), ("n", 20)]),
        row_of(&[("id", 3), ("n", 30)]),
    ];
    let result = QueryResult::make(1234, rows);
    assert_eq!(result.elapsed_ms, "1234");
    assert_eq!(result.num_rows, "3");
    assert_eq!(result.fields, vec!["id".to_string(), "n".to_string()]);
    assert_eq!(result.rows.len(), 3);
    assert_eq!(result.rows[2], row_of(&[("id", 3), ("n", 30)]));
}

#[test]
fn result_without_rows_has_no_fields() {
    let result = QueryResult::make(0, vec![]);
    assert_eq!(result.elapsed_ms, "0");
    assert_eq!(result.num_rows, "0");
    assert_eq!(result.fields, Vec::<String>::new());
    assert!(result.rows.is_empty());
}

#[test]
fn test_adapter() {
    let opts: AdapterOpts = AdapterOpts {
        driver: DriverType::SQLite,
        filepath: "../data/sqlite-testdb.db".to_string(),
        ..<_>::default()
    };
    let plan = connect_adapter(opts, None).unwrap();
    assert_eq!(plan, AdapterPlan::Sqlite { filepath: "../data/sqlite-testdb.db".to_string() });
    // What `SELECT * FROM albums LIMIT 10` brings back.
    let rows: Vec<Keyed<JsonCell>> = (0..10).map(|i| row_of(&[("AlbumId", i)])).collect();
    let result = QueryResult::make(7, rows);

    assert_eq!("10".to_string(), result.num_rows);
}

#[test]
fn test_adapter_through_tunnel() {
    let adapter_opts: AdapterOpts = AdapterOpts {
        driver: DriverType::MySQL,
        host: "mysql".to_string(),
        port: 3306,
        user: "root".to_string(),
        password: "mypassword".to_string(),
        ..<_>::default()
    };
    let ssh_opts: SshOpts = SshOpts {
        host: "127.0.0.1".to_string(),
        port: 10022,
        user: "torqle".to_string(),
        password: "littlebuddy".to_string(),
        keyfile: None,
    };
    let opts = match connect_adapter(adapter_opts, Some(ssh_opts)).unwrap() {
        AdapterPlan::OpenTunnel { opts, target, .. } => {
            assert_eq!(target, TargetEndpoint { host: "mysql".to_string(), port: 3306 });
            opts
        }
        other => panic!("no tunnel asked for: {:?}", other),
    };
    let binding = LocalBinding::bound(40123).unwrap();
    assert!(matches!(
        connect_adapter(tunnel(&opts, &binding), None),
        Ok(AdapterPlan::MySql { .. })
    ));
    // What `SELECT NOW()` brings back.
    let now = parse_row(&vec![Column {
        name: "NOW()".to_string(),
        value: date(2024, 1, 5, 13, 7, 9, 0),
    }]);
    let result = QueryResult::make(2, vec![now]);

    assert_eq!("1".to_string(), result.num_rows);
    assert_eq!(result.fields, vec!["NOW()".to_string()]);
    assert_eq!(
        result.rows[0].get(&"NOW()".to_string()),
        Some(&text("2024-01-05T13:07:09+00:00"))
    );
}

#[test]
fn fields_are_the_names_of_the_first_row_each_once() {
    let first = parse_row(&vec![
        Column { name: "a".to_string(), value: SqlValue::Int { signed: 1 } },
        Column { name: "b".to_string(), value: SqlValue::Int { signed: 2 } },
        Column { name: "a".to_string(), value: SqlValue::Int { signed: 3 } },
        Column { name: "c".to_string(), value: SqlValue::Int { signed: 4 } },
    ]);
    let result = QueryResult::make(1, vec![first, row_of(&[("z", 0)])]);
    assert_eq!(result.fields, vec!["a".to_string(), "b".to_string(), "c".to_string()]);
    assert_eq!(
        cells(parse_row(&vec![Column { name: "a".to_string(), value: SqlValue::Null }])),
        vec![named("a", JsonCell::Null)]
    );
}

#[test]
fn elapsed_time_may_be_long() {
    assert_eq!(
        QueryResult::make(u128::MAX, vec![]).elapsed_ms,
        "340282366920938463463374607431768211455"
    );
}

#[test]
fn database_names_are_quoted() {
    assert_eq!(torqle::adapters::mysql::use_database("chinook"), "USE `chinook`");
    assert_eq!(torqle::adapters::mysql::use_database(""), "USE ``");
}

fn leap(year: u16) -> bool {
    year % 4 == 0 && (year % 100 != 0 || year % 400 == 0)
}

fn days_in(year: u16, month: u8) -> u8 {
    match month {
        2 if leap(year) => 29,
        2 => 28,
        4 | 6 | 9 | 11 => 30,
        _ => 31,
    }
}

fn expected_moment(year: u16, month: u8, day: u8, hour: u8, minute: u8, second: u8) -> String {
    let exists = (1..=12).contains(&month)
        && day >= 1
        && day <= days_in(year, month)
        && hour < 24
        && minute < 60
        && second < 60;
    if !exists {
        return "Invalid DateTime".to_string();
    }
    let years = if year <= 9999 { format!("{:04}", year) } else { format!("+{}", year) };
    format!("{}-{:02}-{:02}T{:02}:{:02}:{:02}+00:00", years, month, day, hour, minute, second)
}

#[test]
fn moments_follow_the_calendar() {
    let years = [0, 1, 4, 99, 100, 400, 1582, 1900, 1999, 2000, 2023, 2024, 2100, 9999, 10000, 65535];
    let times = [(0, 0, 1), (0, 1, 0), (1, 0, 0), (23, 59, 59), (24, 0, 0), (0, 60, 0), (0, 0, 60)];
    for year in years {
        for month in 0..=13 {
            for day in 0..=32 {
                for (hour, minute, second) in times {
                    assert_eq!(
                        parse_value(&date(year, month, day, hour, minute, second, 0)),
                        text(&expected_moment(year, month, day, hour, minute, second)),
                        "{}-{}-{} {}:{}:{}",
                        year,
                        month,
                        day,
                        hour,
                        minute,
                        second
                    );
                }
            }
        }
    }
}

#[test]
fn leap_day_of_year_zero_exists() {
    assert_eq!(parse_value(&date(0, 2, 29, 1, 0, 0, 0)), text("0000-02-29T01:00:00+00:00"));
}
