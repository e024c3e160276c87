//! Rows of a query result: how each value of a database row is written for
//! the front end.

use crate::keyed::Keyed;
use crate::text::{decimal, spec_decimal, spec_four_digits, spec_two_digits};
use vstd::prelude::*;
use vstd::string::*;

verus! {

/// A value as the MySQL driver hands it out. Floating-point values are held
/// by their bit patterns.
#[derive(Debug, PartialEq, Eq)]
pub enum SqlValue {
    Null,
    Bytes { bytes: Vec<u8> },
    Int { signed: i64 },
    UInt { unsigned: u64 },
    Float { single: u32 },
    Double { double: u64 },
    Date { year: u16, month: u8, day: u8, hour: u8, minute: u8, second: u8, micros: u32 },
    Time { negative: bool, days: u32, hours: u8, minutes: u8, seconds: u8, micros: u32 },
}

/// The mathematical value of an [`SqlValue`].
pub enum SqlValueView {
    Null,
    Bytes { bytes: Seq<u8> },
    Int { signed: i64 },
    UInt { unsigned: u64 },
    Float { single: u32 },
    Double { double: u64 },
    Date { year: u16, month: u8, day: u8, hour: u8, minute: u8, second: u8, micros: u32 },
    Time { negative: bool, days: u32, hours: u8, minutes: u8, seconds: u8, micros: u32 },
}

impl View for SqlValue {
    type V = SqlValueView;

    open spec fn view(&self) -> SqlValueView {
        match self {
            SqlValue::Null => SqlValueView::Null,
            SqlValue::Bytes { bytes } => SqlValueView::Bytes { bytes: bytes@ },
            SqlValue::Int { signed } => SqlValueView::Int { signed: *signed },
            SqlValue::UInt { unsigned } => SqlValueView::UInt { unsigned: *unsigned },
            SqlValue::Float { single } => SqlValueView::Float { single: *single },
            SqlValue::Double { double } => SqlValueView::Double { double: *double },
            SqlValue::Date { year, month, day, hour, minute, second, micros } => SqlValueView::Date {
                year: *year,
                month: *month,
                day: *day,
                hour: *hour,
                minute: *minute,
                second: *second,
                micros: *micros,
            },
            SqlValue::Time { negative, days, hours, minutes, seconds, micros } => SqlValueView::Time {
                negative: *negative,
                days: *days,
                hours: *hours,
                minutes: *minutes,
                seconds: *seconds,
                micros: *micros,
            },
        }
    }
}

/// A value as the front end receives it. Text that came as bytes is held as
/// those bytes; floating-point numbers are held by their bit patterns.
#[derive(Debug, PartialEq, Eq)]
pub enum JsonCell {
    Null,
    Text { text: String },
    Utf8 { bytes: Vec<u8> },
    Int { signed: i64 },
    UInt { unsigned: u64 },
    Float { single: u32 },
    Double { double: u64 },
}

/// The mathematical value of a [`JsonCell`].
pub enum JsonCellView {
    Null,
    Text { text: Seq<char> },
    Utf8 { bytes: Seq<u8> },
    Int { signed: i64 },
    UInt { unsigned: u64 },
    Float { single: u32 },
    Double { double: u64 },
}

impl View for JsonCell {
    type V = JsonCellView;

    open spec fn view(&self) -> JsonCellView {
        match self {
            JsonCell::Null => JsonCellView::Null,
            JsonCell::Text { text } => JsonCellView::Text { text: text@ },
            JsonCell::Utf8 { bytes } => JsonCellView::Utf8 { bytes: bytes@ },
            JsonCell::Int { signed } => JsonCellView::Int { signed: *signed },
            JsonCell::UInt { unsigned } => JsonCellView::UInt { unsigned: *unsigned },
            JsonCell::Float { single } => JsonCellView::Float { single: *single },
            JsonCell::Double { double } => JsonCellView::Double { double: *double },
        }
    }
}

/// Whether a year of the Gregorian calendar has a 29th of February.
pub open spec fn spec_leap_year(year: int) -> bool {
    year % 4 == 0 && (year % 100 != 0 || year % 400 == 0)
}

/// The number of days of a month.
pub open spec fn spec_days_in_month(year: int, month: int) -> int {
    if month == 2 {
        if spec_leap_year(year) {
            29
        } else {
            28
        }
    } else if month == 4 || month == 6 || month == 9 || month == 11 {
        30
    } else {
        31
    }
}

/// Whether the day exists in the Gregorian calendar and the time on a clock
/// without leap seconds.
pub open spec fn spec_valid_date_time(
    year: int,
    month: int,
    day: int,
    hour: int,
    minute: int,
    second: int,
) -> bool {
    &&& 1 <= month <= 12
    &&& 1 <= day <= spec_days_in_month(year, month)
    &&& hour < 24
    &&& minute < 60
    &&& second < 60
}

/// The time of day as `HH:MM:SS`.
pub open spec fn spec_clock(hour: nat, minute: nat, second: nat) -> Seq<char> {
    spec_two_digits(hour) + seq![':'] + spec_two_digits(minute) + seq![':'] + spec_two_digits(second)
}

/// A moment in UTC as RFC 3339 writes it, to the second: the year in four
/// digits, or with a plus sign where it needs more.
pub open spec fn spec_rfc3339(
    year: nat,
    month: nat,
    day: nat,
    hour: nat,
    minute: nat,
    second: nat,
) -> Seq<char> {
    let years = if year <= 9999 {
        spec_four_digits(year)
    } else {
        seq!['+'] + spec_decimal(year)
    };
    years + seq!['-'] + spec_two_digits(month) + seq!['-'] + spec_two_digits(day) + seq!['T']
        + spec_clock(hour, minute, second) + seq!['+', '0', '0', ':', '0', '0']
}

/// Calls chrono's `Utc.with_ymd_and_hms` and, on the one moment it may give,
/// `DateTime::to_rfc3339`.
///
/// The first gives a moment exactly for a day that exists in the proleptic
/// Gregorian calendar with an hour below 24 and minute and second below 60.
/// The second writes `YYYY-MM-DDTHH:MM:SS+00:00` for a moment in UTC on a
/// whole second, with `+` and all digits of the year where it is above 9999.
#[verifier::external_body]
fn utc_rfc3339(year: u16, month: u8, day: u8, hour: u8, minute: u8, second: u8) -> (text: Option<
    String,
>)
    ensures
        text is Some <==> spec_valid_date_time(
            year as int,
            month as int,
            day as int,
            hour as int,
            minute as int,
            second as int,
        ),
        text is Some ==> text->Some_0@ == spec_rfc3339(
            year as nat,
            month as nat,
            day as nat,
            hour as nat,
            minute as nat,
            second as nat,
        ),
{
    match chrono::TimeZone::with_ymd_and_hms(
        &chrono::Utc,
        year.into(),
        month.into(),
        day.into(),
        hour.into(),
        minute.into(),
        second.into(),
    ) {
        chrono::LocalResult::Single(moment) => Some(moment.to_rfc3339()),
        chrono::LocalResult::Ambiguous(_, _) => None,
        chrono::LocalResult::None => None,
    }
}

/// Calls chrono's `Utc.with_ymd_and_hms` and, on the one moment it may give,
/// `DateTime::format` with `%T`, which writes the time of day as `HH:MM:SS`.
#[verifier::external_body]
fn utc_clock(year: u16, month: u8, day: u8, hour: u8, minute: u8, second: u8) -> (text: Option<
    String,
>)
    ensures
        text is Some <==> spec_valid_date_time(
            year as int,
            month as int,
            day as int,
            hour as int,
            minute as int,
            second as int,
        ),
        text is Some ==> text->Some_0@ == spec_clock(hour as nat, minute as nat, second as nat),
{
    match chrono::TimeZone::with_ymd_and_hms(
        &chrono::Utc,
        year.into(),
        month.into(),
        day.into(),
        hour.into(),
        minute.into(),
        second.into(),
    ) {
        chrono::LocalResult::Single(moment) => Some(moment.format("%T").to_string()),
        chrono::LocalResult::Ambiguous(_, _) => None,
        chrono::LocalResult::None => None,
    }
}

/// What is written for a date and time that do not exist.
pub open spec fn spec_invalid_date_time() -> Seq<char> {
    "Invalid DateTime"@
}

/// What is written for a time of day.
pub open spec fn spec_invalid_time() -> Seq<char> {
    "Invalid Time"@
}

/// A date without a time of day: year, month and day in decimal, joined by
/// hyphens, none of them padded.
pub open spec fn spec_plain_date(year: nat, month: nat, day: nat) -> Seq<char> {
    spec_decimal(year) + seq!['-'] + spec_decimal(month) + seq!['-'] + spec_decimal(day)
}

/// How a value of a row is written for the front end.
///
/// Numbers, bytes and nulls pass as they are. A date at midnight sharp is
/// written as a plain date, whether or not that day exists; any other date
/// as a moment in UTC, or as `Invalid DateTime` where there is no such
/// moment. A time of day is placed on a day that does not exist, so it is
/// always written as `Invalid Time`.
pub open spec fn spec_parse_value(value: SqlValueView) -> JsonCellView {
    match value {
        SqlValueView::Null => JsonCellView::Null,
        SqlValueView::Bytes { bytes } => JsonCellView::Utf8 { bytes },
        SqlValueView::Int { signed } => JsonCellView::Int { signed },
        SqlValueView::UInt { unsigned } => JsonCellView::UInt { unsigned },
        SqlValueView::Float { single } => JsonCellView::Float { single },
        SqlValueView::Double { double } => JsonCellView::Double { double },
        SqlValueView::Date { year, month, day, hour, minute, second, micros } => JsonCellView::Text {
            text: if hour == 0 && minute == 0 && second == 0 && micros == 0 {
                spec_plain_date(year as nat, month as nat, day as nat)
            } else if spec_valid_date_time(
                year as int,
                month as int,
                day as int,
                hour as int,
                minute as int,
                second as int,
            ) {
                spec_rfc3339(
                    year as nat,
                    month as nat,
                    day as nat,
                    hour as nat,
                    minute as nat,
                    second as nat,
                )
            } else {
                spec_invalid_date_time()
            },
        },
        SqlValueView::Time { .. } => JsonCellView::Text { text: spec_invalid_time() },
    }
}

/// Copies bytes.
fn copy_bytes(bytes: &Vec<u8>) -> (copy: Vec<u8>)
    ensures
        copy@ == bytes@,
{
    let copy = bytes.clone();
    copy
}

/// Writes one value of a row for the front end.
pub fn parse_value(value: &SqlValue) -> (cell: JsonCell)
    ensures
        cell@ == spec_parse_value(value@),
{
    match value {
        SqlValue::Null => JsonCell::Null,
        SqlValue::Bytes { bytes } => JsonCell::Utf8 { bytes: copy_bytes(bytes) },
        SqlValue::Int { signed } => JsonCell::Int { signed: *signed },
        SqlValue::UInt { unsigned } => JsonCell::UInt { unsigned: *unsigned },
        SqlValue::Float { single } => JsonCell::Float { single: *single },
        SqlValue::Double { double } => JsonCell::Double { double: *double },
        SqlValue::Date { year, month, day, hour, minute, second, micros } => {
            if *hour == 0 && *minute == 0 && *second == 0 && *micros == 0 {
                proof {
                    reveal_strlit("-");
                }
                let mut text = decimal(*year as u128);
                text.append("-");
                let months = decimal(*month as u128);
                text.append(months.as_str());
                text.append("-");
                let days = decimal(*day as u128);
                text.append(days.as_str());
                assert(text@ =~= spec_plain_date(*year as nat, *month as nat, *day as nat));
                JsonCell::Text { text }
            } else {
                match utc_rfc3339(*year, *month, *day, *hour, *minute, *second) {
                    Some(text) => JsonCell::Text { text },
                    None => JsonCell::Text { text: "Invalid DateTime".to_string() },
                }
            }
        },
        SqlValue::Time { negative: _, days: _, hours, minutes, seconds, micros: _ } => {
            match utc_clock(0, 0, 0, *hours, *minutes, *seconds) {
                Some(text) => JsonCell::Text { text },
                None => JsonCell::Text { text: "Invalid Time".to_string() },
            }
        },
    }
}

/// A value of a row under the name of its column.
#[derive(Debug, PartialEq, Eq)]
pub struct Column {
    pub name: String,
    pub value: SqlValue,
}

/// The values of a row as the front end receives them, by the views of the
/// values held.
pub open spec fn cell_views(cells: Map<Seq<char>, JsonCell>) -> Map<Seq<char>, JsonCellView> {
    Map::new(|name: Seq<char>| cells.dom().contains(name), |name: Seq<char>| cells[name]@)
}

/// What a row is written as: each column in turn under its name, a later
/// column in place of an earlier one of the same name.
pub open spec fn spec_row(row: Seq<Column>) -> Map<Seq<char>, JsonCellView>
    decreases row.len(),
{
    if row.len() == 0 {
        Map::empty()
    } else {
        spec_row(row.drop_last()).insert(row.last().name@, spec_parse_value(row.last().value@))
    }
}

/// Writes a row for the front end: a value under each column's name, and
/// where columns share a name, the value of the last of them.
pub fn parse_row(row: &Vec<Column>) -> (fields: Keyed<JsonCell>)
    ensures
        cell_views(fields@) == spec_row(row@),
{
    let mut fields: Keyed<JsonCell> = Keyed::new();
    let mut at: usize = 0;
    assert(row@.take(0) =~= Seq::<Column>::empty());
    assert(cell_views(fields@) =~= spec_row(row@.take(0)));
    while at < row.len()
        invariant
            at <= row@.len(),
            cell_views(fields@) == spec_row(row@.take(at as int)),
        decreases row.len() - at,
    {
        let column = &row[at];
        let ghost before = fields@;
        let ghost upto = row@.take(at as int + 1);
        assert(upto.drop_last() =~= row@.take(at as int));
        assert(upto.last() == row@[at as int]);
        let cell = parse_value(&column.value);
        fields.insert(column.name.clone(), cell);
        assert(cell_views(fields@) =~= cell_views(before).insert(column.name@, cell@));
        at = at + 1;
    }
    assert(row@.take(at as int) =~= row@);
    fields
}

/// A row is written under the names of its columns and no others.
pub proof fn row_has_its_columns(row: Seq<Column>)
    ensures
        forall|name: Seq<char>|
            spec_row(row).dom().contains(name) <==> exists|i: int|
                0 <= i < row.len() && #[trigger] row[i].name@ == name,
    decreases row.len(),
{
    if row.len() > 0 {
        let front = row.drop_last();
        row_has_its_columns(front);
        assert forall|name: Seq<char>| spec_row(row).dom().contains(name) <==> exists|i: int|
            0 <= i < row.len() && #[trigger] row[i].name@ == name by {
            if spec_row(front).dom().contains(name) {
                let i = choose|i: int| 0 <= i < front.len() && #[trigger] front[i].name@ == name;
                assert(row[i].name@ == name);
            }
            if exists|i: int| 0 <= i < row.len() && #[trigger] row[i].name@ == name {
                let i = choose|i: int| 0 <= i < row.len() && #[trigger] row[i].name@ == name;
                if i < front.len() {
                    assert(front[i].name@ == name);
                } else {
                    assert(row.last().name@ == name);
                }
            }
        }
    }
}

/// The last column of a name wins: a column that no later column shares its
/// name with is written under that name.
pub proof fn last_column_wins(row: Seq<Column>, at: int)
    requires
        0 <= at < row.len(),
        forall|later: int| at < later < row.len() ==> (#[trigger] row[later]).name@ != row[at].name@,
    ensures
        spec_row(row).dom().contains(row[at].name@),
        spec_row(row)[row[at].name@] == spec_parse_value(row[at].value@),
    decreases row.len(),
{
    if at < row.len() - 1 {
        let front = row.drop_last();
        assert(row[row.len() - 1].name@ != row[at].name@);
        assert forall|later: int| at < later < front.len() implies (#[trigger] front[later]).name@
            != front[at].name@ by {
            assert(front[later] == row[later]);
        }
        last_column_wins(front, at);
    }
}

/// The kinds of value that the SQLite driver tells apart by a column's type.
#[derive(Clone, Copy, Debug, PartialEq, Eq, Structural)]
pub enum SqliteKind {
    Null,
    Integer,
    Text,
    Real,
    /// A type whose values are not decoded: they are written as nulls.
    Undecoded,
}

/// The kind of value that a column of the type called `declared` holds.
pub open spec fn spec_sqlite_kind(declared: Seq<char>) -> SqliteKind {
    if declared == "NULL"@ {
        SqliteKind::Null
    } else if declared == "INTEGER"@ {
        SqliteKind::Integer
    } else if declared == "TEXT"@ {
        SqliteKind::Text
    } else if declared == "REAL"@ {
        SqliteKind::Real
    } else {
        SqliteKind::Undecoded
    }
}

/// Tells by the name of a column's type how its values are decoded.
pub fn sqlite_kind(declared: &str) -> (kind: SqliteKind)
    ensures
        kind == spec_sqlite_kind(declared@),
{
    let name = declared.to_string();
    if name == "NULL".to_string() {
        SqliteKind::Null
    } else if name == "INTEGER".to_string() {
        SqliteKind::Integer
    } else if name == "TEXT".to_string() {
        SqliteKind::Text
    } else if name == "REAL".to_string() {
        SqliteKind::Real
    } else {
        SqliteKind::Undecoded
    }
}

} // verus!
