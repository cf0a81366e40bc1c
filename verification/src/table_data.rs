//! Rows and cells: the statements that insert, trash and delete rows, the
//! coercion of a value written into a cell, and the cells sent for a row with
//! their failed validations.

use vstd::prelude::*;
use crate::column_type::{MetadataColumnType, Primitive};
use crate::data_query::Column;
use crate::error::{Error, FailedValidation};
use crate::sql::{lemma_plan_push, plan_model, stmt, text_param, Param, SqlValue, Statement, StatementModel};
use crate::text::{
    column_name, column_name_text, int_string, int_text, push_text, table_name, table_name_text,
    wrap, wrap2,
};

verus! {

broadcast use vstd::std_specs::hash::group_hash_axioms;

/// The statement `before TABLE<t> after` with the single parameter `id`.
pub open spec fn row_stmt(before: Seq<char>, t: int, after: Seq<char>, id: int) -> StatementModel {
    stmt(before + table_name_text(t) + after, seq![Param::Integer(id)])
}

/// Inserts the row `id` into table `t`.
pub open spec fn insert_row_model(t: int, id: int) -> StatementModel {
    row_stmt("INSERT INTO "@, t, " (OID) VALUES (?1);"@, id)
}

/// Moves the row `id` of table `t` to the id above it.
pub open spec fn shift_row_model(t: int, id: int) -> StatementModel {
    row_stmt("UPDATE "@, t, " SET OID = OID + 1 WHERE OID = ?1;"@, id)
}

/// Flags the row `id` of table `t` as trash.
pub open spec fn trash_row_model(t: int, id: int) -> StatementModel {
    row_stmt("UPDATE "@, t, " SET TRASH = 1 WHERE OID = ?1;"@, id)
}

/// Clears the trash flag of the row `id` of table `t`.
pub open spec fn restore_row_model(t: int, id: int) -> StatementModel {
    row_stmt("UPDATE "@, t, " SET TRASH = 0 WHERE OID = ?1;"@, id)
}

/// Deletes the row `id` of table `t`.
pub open spec fn delete_row_model(t: int, id: int) -> StatementModel {
    row_stmt("DELETE FROM "@, t, " WHERE OID = ?1;"@, id)
}

/// Asks whether table `t` has a row `id`.
pub open spec fn probe_row_model(t: int, id: int) -> StatementModel {
    row_stmt("SELECT OID FROM "@, t, " WHERE OID = ?1;"@, id)
}

/// Lists the ids of table `t` from `id` upwards, the highest first.
pub open spec fn rows_from_model(t: int, id: int) -> StatementModel {
    row_stmt("SELECT OID FROM "@, t, " WHERE OID >= ?1 ORDER BY OID DESC;"@, id)
}

/// Appends a row with a fresh id to table `t`.
pub open spec fn push_row_model(t: int) -> StatementModel {
    stmt("INSERT INTO "@ + table_name_text(t) + " DEFAULT VALUES;"@, Seq::empty())
}

/// The id that a row inserted before `row_oid` gets: `row_oid` itself where
/// it is unused or rows have to move up, the id below where only that one is
/// unused.
pub open spec fn inserted_row_oid(row_oid: i64, target_exists: bool, previous_exists: bool) -> int {
    if target_exists && !previous_exists {
        row_oid - 1
    } else {
        row_oid as int
    }
}

/// The statements that insert a row before `row_oid` into table `t`: where
/// both `row_oid` and the id below it are in use, every id of `at_or_above`
/// moves up by one, in the order given, before the row is inserted.
pub open spec fn insert_plan(
    t: int,
    row_oid: i64,
    target_exists: bool,
    previous_exists: bool,
    at_or_above: Seq<i64>,
) -> Seq<StatementModel> {
    if target_exists && previous_exists {
        Seq::new(at_or_above.len(), |i: int| shift_row_model(t, at_or_above[i] as int)).push(
            insert_row_model(t, row_oid as int),
        )
    } else {
        seq![insert_row_model(t, inserted_row_oid(row_oid, target_exists, previous_exists))]
    }
}

fn row_statement(before: &str, table_oid: i64, after: &str, id: i64) -> (r: Statement)
    ensures
        r@ == row_stmt(before@, table_oid as int, after@, id as int),
{
    let mut sql: String = String::from_str(before);
    push_text(&mut sql, &table_name(table_oid));
    sql.append(after);
    Statement::with1(sql, SqlValue::Integer(id))
}

/// The statement that tells whether table `table_oid` has a row `row_oid`.
pub fn probe_row(table_oid: i64, row_oid: i64) -> (r: Statement)
    ensures
        r@ == probe_row_model(table_oid as int, row_oid as int),
{
    row_statement("SELECT OID FROM ", table_oid, " WHERE OID = ?1;", row_oid)
}

/// The statement that lists the ids of table `table_oid` from `row_oid`
/// upwards, the highest first.
pub fn rows_from(table_oid: i64, row_oid: i64) -> (r: Statement)
    ensures
        r@ == rows_from_model(table_oid as int, row_oid as int),
{
    row_statement("SELECT OID FROM ", table_oid, " WHERE OID >= ?1 ORDER BY OID DESC;", row_oid)
}

/// Plans the insertion of a row before `row_oid`: the id that the new row
/// gets and the statements to run. `target_exists` and `previous_exists` say
/// whether `row_oid` and the id below it are in use; `at_or_above` lists the
/// ids from `row_oid` upwards, the highest first, so that no two rows share
/// an id while they move.
pub fn insert(
    table_oid: i64,
    row_oid: i64,
    target_exists: bool,
    previous_exists: bool,
    at_or_above: &Vec<i64>,
) -> (r: (i64, Vec<Statement>))
    requires
        row_oid > i64::MIN,
    ensures
        r.0 == inserted_row_oid(row_oid, target_exists, previous_exists),
        plan_model(r.1@) == insert_plan(
            table_oid as int,
            row_oid,
            target_exists,
            previous_exists,
            at_or_above@,
        ),
{
    let mut plan: Vec<Statement> = Vec::new();
    let new_oid: i64 = if target_exists && !previous_exists {
        row_oid - 1
    } else {
        row_oid
    };
    if target_exists && previous_exists {
        let mut i: usize = 0;
        while i < at_or_above.len()
            invariant
                i <= at_or_above.len(),
                plan_model(plan@) == Seq::new(
                    i as nat,
                    |k: int| shift_row_model(table_oid as int, at_or_above@[k] as int),
                ),
            decreases at_or_above.len() - i,
        {
            let shift: Statement = row_statement(
                "UPDATE ",
                table_oid,
                " SET OID = OID + 1 WHERE OID = ?1;",
                at_or_above[i],
            );
            proof {
                lemma_plan_push(plan@, shift);
            }
            plan.push(shift);
            i = i + 1;
            assert(plan_model(plan@) =~= Seq::new(
                i as nat,
                |k: int| shift_row_model(table_oid as int, at_or_above@[k] as int),
            ));
        }
    }
    let last: Statement = row_statement("INSERT INTO ", table_oid, " (OID) VALUES (?1);", new_oid);
    proof {
        lemma_plan_push(plan@, last);
    }
    plan.push(last);
    assert(plan_model(plan@) =~= insert_plan(
        table_oid as int,
        row_oid,
        target_exists,
        previous_exists,
        at_or_above@,
    ));
    (new_oid, plan)
}

/// The statement that appends a row to table `table_oid`; the row id that
/// the store gives it is the id of the new row.
pub fn push(table_oid: i64) -> (r: Statement)
    ensures
        r@ == push_row_model(table_oid as int),
{
    let mut sql: String = String::from_str("INSERT INTO ");
    push_text(&mut sql, &table_name(table_oid));
    sql.append(" DEFAULT VALUES;");
    Statement::plain(sql)
}

/// The statement that flags a row as trash.
pub fn move_trash(table_oid: i64, row_oid: i64) -> (r: Statement)
    ensures
        r@ == trash_row_model(table_oid as int, row_oid as int),
{
    row_statement("UPDATE ", table_oid, " SET TRASH = 1 WHERE OID = ?1;", row_oid)
}

/// The statement that clears the trash flag of a row.
pub fn unmove_trash(table_oid: i64, row_oid: i64) -> (r: Statement)
    ensures
        r@ == restore_row_model(table_oid as int, row_oid as int),
{
    row_statement("UPDATE ", table_oid, " SET TRASH = 0 WHERE OID = ?1;", row_oid)
}

/// The statement that deletes a row for good.
pub fn delete(table_oid: i64, row_oid: i64) -> (r: Statement)
    ensures
        r@ == delete_row_model(table_oid as int, row_oid as int),
{
    row_statement("DELETE FROM ", table_oid, " WHERE OID = ?1;", row_oid)
}

// ---------------------------------------------------------------------------
// Writing a value into a cell.

/// Whether `serde_json` reads `text` as one JSON value.
pub uninterp spec fn json_well_formed(text: Seq<char>) -> bool;

/// The Julian day of the ISO 8601 calendar date that `text` spells, as the
/// `time` crate reads it; `None` where it reads none.
pub uninterp spec fn iso_date_julian_day(text: Seq<char>) -> Option<i32>;

/// The Julian day of the date, and the hour, minute, second and nanosecond,
/// of the ISO 8601 date and time that `text` spells, as the `time` crate
/// reads it, whatever offset follows; `None` where it reads none.
pub uninterp spec fn iso_local_timestamp_parts(text: Seq<char>) -> Option<(i32, u8, u8, u8, u32)>;

/// The offset from UTC, in seconds, that the ISO 8601 date and time `text`
/// ends with, as the `time` crate reads it: `Some(None)` where the text
/// names no offset, `None` where what it names is no offset.
pub uninterp spec fn iso_offset_seconds(text: Seq<char>) -> Option<Option<i32>>;

/// The Julian day of the date in the ISO 8601 date and time that `text`
/// spells, as the `time` crate reads it; `None` where it reads none.
pub uninterp spec fn iso_text_julian_day(text: Seq<char>) -> Option<i32>;

/// The date and time in UTC that the ISO 8601 date and time `text` spells,
/// as the `time` crate reads and converts it in one: Julian day, hour,
/// minute, second and nanosecond; `None` where it reads none.
pub uninterp spec fn iso_utc_timestamp_parts(text: Seq<char>) -> Option<(i32, u8, u8, u8, u32)>;

/// The Julian day of the first day that a date can name.
pub open spec fn first_julian_day() -> int {
    -1930999
}

/// The Julian day of the last day that a date can name.
pub open spec fn last_julian_day() -> int {
    5373484
}

/// Whether the day `j` is two days or more from either end of the days that
/// a date can name, so that no offset from UTC leads beyond them.
pub open spec fn far_from_the_ends(j: i32) -> bool {
    first_julian_day() + 2 <= j <= last_julian_day() - 2
}

/// The date and time in UTC of the date and time given by its Julian day,
/// hour, minute, second and nanosecond at `offset` seconds from UTC: the
/// seconds of the day less the offset, carried into the day. `None` where a
/// part is out of its range, the offset is beyond 25 hours, 59 minutes and
/// 59 seconds either way, or the day in UTC is none that a date can name.
pub open spec fn utc_timestamp_parts(
    julian_day: i32,
    hour: u8,
    minute: u8,
    second: u8,
    nanosecond: u32,
    offset: i32,
) -> Option<(i32, u8, u8, u8, u32)> {
    let total = hour * 3600 + minute * 60 + second - offset + 172800;
    let day = julian_day + total / 86400 - 2;
    let seconds = total % 86400;
    if julian_day < first_julian_day() || julian_day > last_julian_day() || hour >= 24 || minute
        >= 60 || second >= 60 || nanosecond >= 1000000000 || offset < -93599 || offset > 93599
        || day < first_julian_day() || day > last_julian_day() {
        None
    } else {
        Some(
            (
                day as i32,
                (seconds / 3600) as u8,
                ((seconds % 3600) / 60) as u8,
                (seconds % 60) as u8,
                nanosecond,
            ),
        )
    }
}

/// The date and time in UTC that `text` spells, read piece by piece: what
/// is read whatever offset follows, moved by the offset where the text
/// names one.
pub open spec fn iso_pieces_timestamp_parts(text: Seq<char>) -> Option<(i32, u8, u8, u8, u32)> {
    match iso_local_timestamp_parts(text) {
        None => None,
        Some(local) => match iso_offset_seconds(text) {
            None => None,
            Some(None) => Some(local),
            Some(Some(offset)) => utc_timestamp_parts(
                local.0,
                local.1,
                local.2,
                local.3,
                local.4,
                offset,
            ),
        },
    }
}

/// The date and time in UTC that `text` spells. Far from the first and the
/// last day it is what the `time` crate reads and converts in one; within
/// two days of them, where that conversion may leave the days that a date
/// can name, it is read piece by piece.
pub open spec fn iso_timestamp_parts(text: Seq<char>) -> Option<(i32, u8, u8, u8, u32)> {
    match iso_text_julian_day(text) {
        None => None,
        Some(j) => if far_from_the_ends(j) {
            iso_utc_timestamp_parts(text)
        } else {
            iso_pieces_timestamp_parts(text)
        },
    }
}

/// Calls `serde_json::from_str` for a `serde_json::Value`. Trusted: the
/// answer is a function of the text alone, named [`json_well_formed`].
#[verifier::external_body]
fn json_is_well_formed(text: &str) -> (r: bool)
    ensures
        r == json_well_formed(text@),
{
    serde_json::from_str::<serde_json::Value>(text).is_ok()
}

/// Calls `time::Date::parse` with the description `Iso8601::DATE` and reads
/// the date's Julian day with `Date::to_julian_day`. Trusted: the answer is a
/// function of the text alone, named [`iso_date_julian_day`].
#[verifier::external_body]
fn parse_iso_date(text: &str) -> (r: Option<i32>)
    ensures
        r == iso_date_julian_day(text@),
{
    match time::Date::parse(text, &time::format_description::well_known::Iso8601::DATE) {
        Ok(date) => Some(date.to_julian_day()),
        Err(_) => None,
    }
}

/// Calls `time::PrimitiveDateTime::parse` with the description
/// `Iso8601::DATE_TIME` and reads the parts of what it returns. Trusted: the
/// answer is a function of the text alone, named
/// [`iso_local_timestamp_parts`].
#[verifier::external_body]
fn parse_local_timestamp(text: &str) -> (r: Option<(i32, u8, u8, u8, u32)>)
    ensures
        r == iso_local_timestamp_parts(text@),
{
    match time::PrimitiveDateTime::parse(
        text,
        &time::format_description::well_known::Iso8601::DATE_TIME,
    ) {
        Ok(t) => Some((t.to_julian_day(), t.hour(), t.minute(), t.second(), t.nanosecond())),
        Err(_) => None,
    }
}

/// Calls `time::UtcOffset::parse` with the description `Iso8601::DATE_TIME`
/// and tells its answers apart: an offset, in seconds; no offset in the text;
/// any other failure. Trusted: the answer is a function of the text alone,
/// named [`iso_offset_seconds`].
#[verifier::external_body]
fn parse_offset(text: &str) -> (r: Option<Option<i32>>)
    ensures
        r == iso_offset_seconds(text@),
{
    match time::UtcOffset::parse(text, &time::format_description::well_known::Iso8601::DATE_TIME) {
        Ok(offset) => Some(Some(offset.whole_seconds())),
        Err(time::error::Parse::TryFromParsed(
            time::error::TryFromParsed::InsufficientInformation,
        )) => Some(None),
        Err(_) => None,
    }
}

/// Calls `time::Date::parse` with the description `Iso8601::DATE_TIME` and
/// reads the date's Julian day with `Date::to_julian_day`. Trusted: the
/// answer is a function of the text alone, named [`iso_text_julian_day`].
#[verifier::external_body]
fn parse_text_day(text: &str) -> (r: Option<i32>)
    ensures
        r == iso_text_julian_day(text@),
{
    match time::Date::parse(text, &time::format_description::well_known::Iso8601::DATE_TIME) {
        Ok(date) => Some(date.to_julian_day()),
        Err(_) => None,
    }
}

/// Calls `time::UtcDateTime::parse` with the description
/// `Iso8601::DATE_TIME` and reads the parts of what it returns. The call
/// converts to UTC and does not return where the result leaves the days that
/// a date can name; the text is asked to name a day far from them. Trusted:
/// the answer is a function of the text alone, named
/// [`iso_utc_timestamp_parts`].
#[verifier::external_body]
fn parse_utc_timestamp(text: &str) -> (r: Option<(i32, u8, u8, u8, u32)>)
    requires
        iso_text_julian_day(text@) is Some,
        far_from_the_ends(iso_text_julian_day(text@)->Some_0),
    ensures
        r == iso_utc_timestamp_parts(text@),
{
    match time::UtcDateTime::parse(text, &time::format_description::well_known::Iso8601::DATE_TIME) {
        Ok(t) => Some((t.to_julian_day(), t.hour(), t.minute(), t.second(), t.nanosecond())),
        Err(_) => None,
    }
}

/// Moves a date and time at `offset` seconds from UTC to UTC.
pub fn shift_to_utc(julian_day: i32, hour: u8, minute: u8, second: u8, nanosecond: u32, offset: i32) -> (r:
    Option<(i32, u8, u8, u8, u32)>)
    ensures
        r == utc_timestamp_parts(julian_day, hour, minute, second, nanosecond, offset),
{
    if julian_day < -1930999 || julian_day > 5373484 || hour >= 24 || minute >= 60 || second >= 60
        || nanosecond >= 1000000000 || offset < -93599 || offset > 93599 {
        return None;
    }
    let total: i64 = (hour as i64) * 3600 + (minute as i64) * 60 + (second as i64) - (offset as i64)
        + 172800;
    let day: i64 = (julian_day as i64) + total / 86400 - 2;
    let seconds: i64 = total % 86400;
    if day < -1930999 || day > 5373484 {
        return None;
    }
    Some(
        (
            day as i32,
            (seconds / 3600) as u8,
            ((seconds % 3600) / 60) as u8,
            (seconds % 60) as u8,
            nanosecond,
        ),
    )
}

/// Reads the date and time in UTC that `text` spells.
fn parse_iso_timestamp(text: &str) -> (r: Option<(i32, u8, u8, u8, u32)>)
    ensures
        r == iso_timestamp_parts(text@),
{
    match parse_text_day(text) {
        None => None,
        Some(j) => {
            if j >= -1930997 && j <= 5373482 {
                parse_utc_timestamp(text)
            } else {
                match parse_local_timestamp(text) {
                    None => None,
                    Some(local) => match parse_offset(text) {
                        None => None,
                        Some(None) => Some(local),
                        Some(Some(offset)) => shift_to_utc(
                            local.0,
                            local.1,
                            local.2,
                            local.3,
                            local.4,
                            offset,
                        ),
                    },
                }
            }
        },
    }
}

/// What is written for a value once it is coerced to its column's type.
#[derive(Clone, Debug, PartialEq, Eq)]
pub enum Coercion {
    /// The text is stored as it is; without a text the cell becomes NULL.
    Store(Option<String>),
    /// The text is read as a number, and the number's integer part is stored.
    Truncate(String),
    /// The Julian day plus the part of a day given by the seconds and
    /// nanoseconds past noon of that day is stored.
    JulianFraction { julian_day: i32, seconds_past_noon: i64, nanosecond: u32 },
}

/// What a coercion holds.
pub enum CoercionModel {
    Store(Option<Seq<char>>),
    Truncate(Seq<char>),
    JulianFraction { julian_day: int, seconds_past_noon: int, nanosecond: int },
}

impl View for Coercion {
    type V = CoercionModel;

    open spec fn view(&self) -> CoercionModel {
        match self {
            Coercion::Store(Some(s)) => CoercionModel::Store(Some(s@)),
            Coercion::Store(None) => CoercionModel::Store(None),
            Coercion::Truncate(s) => CoercionModel::Truncate(s@),
            Coercion::JulianFraction { julian_day, seconds_past_noon, nanosecond } => {
                CoercionModel::JulianFraction {
                    julian_day: *julian_day as int,
                    seconds_past_noon: *seconds_past_noon as int,
                    nanosecond: *nanosecond as int,
                }
            },
        }
    }
}

/// What is written for a JSON text: the text itself where it is well-formed.
pub open spec fn json_coercion_of(text: Seq<char>, well_formed: bool) -> Result<
    CoercionModel,
    Error,
> {
    if well_formed {
        Ok(CoercionModel::Store(Some(text)))
    } else {
        Err(Error::InvalidJson)
    }
}

/// What is written for a date: the decimal text of its Julian day.
pub open spec fn date_coercion_of(julian_day: Option<i32>) -> Result<CoercionModel, Error> {
    match julian_day {
        Some(j) => Ok(CoercionModel::Store(Some(int_text(j as int)))),
        None => Err(Error::InvalidDate),
    }
}

/// What is written for a date and time: its Julian day and the time past
/// noon of that day.
pub open spec fn timestamp_coercion_of(parts: Option<(i32, u8, u8, u8, u32)>) -> Result<
    CoercionModel,
    Error,
> {
    match parts {
        Some((j, h, m, s, n)) => Ok(
            CoercionModel::JulianFraction {
                julian_day: j as int,
                seconds_past_noon: h * 3600 + m * 60 + s - 43200,
                nanosecond: n as int,
            },
        ),
        None => Err(Error::InvalidTimestamp),
    }
}

/// What is written into a column of type `t` for the value `v`: a
/// multi-select or a child table takes no value this way; a JSON, date or
/// timestamp text is checked and converted; an integer text is truncated;
/// everything else, and the absence of a value, is stored as it is.
pub open spec fn coercion_of(t: MetadataColumnType, v: Option<Seq<char>>) -> Result<
    CoercionModel,
    Error,
> {
    match t {
        MetadataColumnType::MultiSelectDropdown(_) => Err(Error::DomainRejected),
        MetadataColumnType::ChildTable(_) => Err(Error::DomainRejected),
        MetadataColumnType::Primitive(p) => match v {
            None => Ok(CoercionModel::Store(None)),
            Some(text) => match p {
                Primitive::JSON => json_coercion_of(text, json_well_formed(text)),
                Primitive::Integer => Ok(CoercionModel::Truncate(text)),
                Primitive::Date => date_coercion_of(iso_date_julian_day(text)),
                Primitive::Timestamp => timestamp_coercion_of(iso_timestamp_parts(text)),
                _ => Ok(CoercionModel::Store(v)),
            },
        },
        _ => Ok(CoercionModel::Store(v)),
    }
}

/// Whether `r` is `model` with the texts as strings.
pub open spec fn coerced_as(r: Result<Coercion, Error>, model: Result<CoercionModel, Error>) -> bool {
    match r {
        Ok(c) => model == Ok::<CoercionModel, Error>(c@),
        Err(e) => model == Err::<CoercionModel, Error>(e),
    }
}

/// The view of an optional text.
pub open spec fn text_view(v: Option<String>) -> Option<Seq<char>> {
    match v {
        Some(s) => Some(s@),
        None => None,
    }
}

/// Asks for the text of the cell of row `r` in column `c` of table `t`:
/// what the cell holds, cast to text, whatever the type of the column.
pub open spec fn prior_value_model(t: int, r: int, c: int) -> StatementModel {
    stmt(
        "SELECT CAST("@ + column_name_text(c) + " AS TEXT) AS PRIOR_VALUE FROM "@ + table_name_text(
            t,
        ) + " WHERE OID = ?1;"@,
        seq![Param::Integer(r)],
    )
}

/// Writes `value` into the cell of row `r` in column `c` of table `t`.
pub open spec fn update_value_model(t: int, r: int, c: int, value: Option<Seq<char>>) -> StatementModel {
    stmt(
        "UPDATE "@ + table_name_text(t) + " SET "@ + column_name_text(c) + " = ?1 WHERE OID = ?2;"@,
        seq![text_param(value), Param::Integer(r)],
    )
}

/// Coerces a JSON text, given whether it is well-formed.
pub fn json_coercion(text: String, well_formed: bool) -> (r: Result<Coercion, Error>)
    ensures
        coerced_as(r, json_coercion_of(text@, well_formed)),
{
    if well_formed {
        Ok(Coercion::Store(Some(text)))
    } else {
        Err(Error::InvalidJson)
    }
}

/// Coerces a date, given the Julian day that was read from its text.
pub fn date_coercion(julian_day: Option<i32>) -> (r: Result<Coercion, Error>)
    ensures
        coerced_as(r, date_coercion_of(julian_day)),
{
    match julian_day {
        Some(j) => Ok(Coercion::Store(Some(int_string(j as i64)))),
        None => Err(Error::InvalidDate),
    }
}

/// Coerces a date and time, given the parts that were read from its text.
pub fn timestamp_coercion(parts: Option<(i32, u8, u8, u8, u32)>) -> (r: Result<Coercion, Error>)
    ensures
        coerced_as(r, timestamp_coercion_of(parts)),
{
    match parts {
        Some((j, h, m, s, n)) => {
            let seconds: i64 = (h as i64) * 3600 + (m as i64) * 60 + (s as i64) - 43200;
            Ok(Coercion::JulianFraction { julian_day: j, seconds_past_noon: seconds, nanosecond: n })
        },
        None => Err(Error::InvalidTimestamp),
    }
}

/// Coerces the value `new_value` to the column type `column_type`.
pub fn coerce_primitive_value(column_type: MetadataColumnType, new_value: Option<String>) -> (r:
    Result<Coercion, Error>)
    ensures
        coerced_as(r, coercion_of(column_type, text_view(new_value))),
{
    match column_type {
        MetadataColumnType::MultiSelectDropdown(_) => Err(Error::DomainRejected),
        MetadataColumnType::ChildTable(_) => Err(Error::DomainRejected),
        MetadataColumnType::Primitive(p) => match new_value {
            None => Ok(Coercion::Store(None)),
            Some(text) => match p {
                Primitive::JSON => {
                    let well_formed: bool = json_is_well_formed(text.as_str());
                    json_coercion(text, well_formed)
                },
                Primitive::Integer => Ok(Coercion::Truncate(text)),
                Primitive::Date => date_coercion(parse_iso_date(text.as_str())),
                Primitive::Timestamp => timestamp_coercion(parse_iso_timestamp(text.as_str())),
                _ => Ok(Coercion::Store(Some(text))),
            },
        },
        _ => Ok(Coercion::Store(new_value)),
    }
}

/// The statement that reads the text of a cell before it is written.
pub fn prior_value_statement(table_oid: i64, row_oid: i64, column_oid: i64) -> (r: Statement)
    ensures
        r@ == prior_value_model(table_oid as int, row_oid as int, column_oid as int),
{
    Statement::with1(
        wrap2(
            "SELECT CAST(",
            &column_name(column_oid),
            " AS TEXT) AS PRIOR_VALUE FROM ",
            &table_name(table_oid),
            " WHERE OID = ?1;",
        ),
        SqlValue::Integer(row_oid),
    )
}

/// The statement that writes `value` into a cell.
pub fn update_value_statement(table_oid: i64, row_oid: i64, column_oid: i64, value: &Option<String>) -> (r:
    Statement)
    ensures
        r@ == update_value_model(
            table_oid as int,
            row_oid as int,
            column_oid as int,
            text_view(*value),
        ),
{
    let mut sql: String = String::from_str("UPDATE ");
    push_text(&mut sql, &table_name(table_oid));
    sql.append(" SET ");
    push_text(&mut sql, &column_name(column_oid));
    sql.append(" = ?1 WHERE OID = ?2;");
    Statement::with2(sql, SqlValue::optional_text(value), SqlValue::Integer(row_oid))
}

/// Plans the update of a cell that is stored as a primitive value: what is
/// to be written, and the statement that reads the prior text, which the
/// caller keeps to undo the update. A value that its column's type refuses
/// gives the error and no statement, so the store stays as it is.
pub fn try_update_primitive_value(
    table_oid: i64,
    row_oid: i64,
    column_oid: i64,
    column_type: MetadataColumnType,
    new_value: Option<String>,
) -> (r: Result<(Coercion, Statement), Error>)
    ensures
        match r {
            Ok((c, prior)) => coercion_of(column_type, text_view(new_value)) == Ok::<
                CoercionModel,
                Error,
            >(c@) && prior@ == prior_value_model(
                table_oid as int,
                row_oid as int,
                column_oid as int,
            ),
            Err(e) => coercion_of(column_type, text_view(new_value)) == Err::<CoercionModel, Error>(
                e,
            ),
        },
{
    match coerce_primitive_value(column_type, new_value) {
        Ok(c) => Ok((c, prior_value_statement(table_oid, row_oid, column_oid))),
        Err(e) => Err(e),
    }
}

/// A JSON column refuses every text that is not well-formed JSON with
/// `InvalidJson`, whatever the text.
pub proof fn lemma_ill_formed_json_is_refused(text: Seq<char>)
    requires
        !json_well_formed(text),
    ensures
        coercion_of(MetadataColumnType::Primitive(Primitive::JSON), Some(text)) == Err::<
            CoercionModel,
            Error,
        >(Error::InvalidJson),
{
}

// ---------------------------------------------------------------------------
// The cells of a row.

/// What is sent for a page of a table: the start of each row, then one cell
/// for each column.
#[derive(Clone, Debug, PartialEq, Eq)]
pub enum Cell {
    RowStart { row_oid: i64, row_index: i64 },
    ColumnValue {
        table_oid: i64,
        row_oid: i64,
        column_oid: i64,
        column_type: MetadataColumnType,
        true_value: Option<String>,
        display_value: Option<String>,
        failed_validations: Vec<FailedValidation>,
    },
}

/// What is sent for one row: whether it exists, then one cell for each
/// column.
#[derive(Clone, Debug, PartialEq, Eq)]
pub enum RowCell {
    RowExists { row_exists: bool },
    ColumnValue {
        table_oid: i64,
        row_oid: i64,
        column_oid: i64,
        column_type: MetadataColumnType,
        true_value: Option<String>,
        display_value: Option<String>,
        failed_validations: Vec<FailedValidation>,
    },
}

/// What was read for one column of one row: the id of the row within the
/// table that owns the column, the stored value and the display value.
#[derive(Clone, Debug, PartialEq, Eq)]
pub struct CellValue {
    pub row_oid: i64,
    pub true_value: Option<String>,
    pub display_value: Option<String>,
}

/// The texts of the validations.
pub open spec fn descriptions(v: Seq<FailedValidation>) -> Seq<Seq<char>> {
    v.map_values(|f: FailedValidation| f.description@)
}

/// The validations that the cell of row `row_oid` in `column` fails, in
/// their order: a column that is not nullable shows no value; a unique
/// column shares its value with another row; the primary key of the row is
/// not unique.
pub open spec fn validation_texts(
    column: Column,
    row_oid: i64,
    has_display: bool,
    invalid_key: bool,
) -> Seq<Seq<char>> {
    (if !column.is_nullable && !has_display {
        seq![column.column_name@ + " cannot be NULL!"@]
    } else {
        Seq::empty()
    }) + (if column.is_unique && column.invalid_nonunique_oid@.contains(row_oid) {
        seq![column.column_name@ + " value is not unique!"@]
    } else {
        Seq::empty()
    }) + (if column.is_primary_key && invalid_key {
        seq!["Primary key for this row is not unique!"@]
    } else {
        Seq::empty()
    })
}

/// Whether `cell` is the cell of `column` with the values `value`; the
/// uniqueness of the primary key is not checked.
pub open spec fn row_cell_shows(cell: RowCell, column: Column, value: CellValue) -> bool {
    match cell {
        RowCell::ColumnValue {
            table_oid,
            row_oid,
            column_oid,
            column_type,
            true_value,
            display_value,
            failed_validations,
        } => {
            &&& table_oid == column.table_oid
            &&& row_oid == value.row_oid
            &&& column_oid == column.column_oid
            &&& column_type == column.column_type
            &&& true_value == value.true_value
            &&& display_value == value.display_value
            &&& descriptions(failed_validations@) == validation_texts(
                column,
                value.row_oid,
                value.display_value is Some,
                false,
            )
        },
        _ => false,
    }
}

/// Whether `cell` is the cell of `column` with the values `value`; the
/// uniqueness of the primary key is not checked.
pub open spec fn cell_shows(cell: Cell, column: Column, value: CellValue) -> bool {
    match cell {
        Cell::ColumnValue {
            table_oid,
            row_oid,
            column_oid,
            column_type,
            true_value,
            display_value,
            failed_validations,
        } => {
            &&& table_oid == column.table_oid
            &&& row_oid == value.row_oid
            &&& column_oid == column.column_oid
            &&& column_type == column.column_type
            &&& true_value == value.true_value
            &&& display_value == value.display_value
            &&& descriptions(failed_validations@) == validation_texts(
                column,
                value.row_oid,
                value.display_value is Some,
                false,
            )
        },
        _ => false,
    }
}

fn named(name: &String, rest: &str) -> (r: FailedValidation)
    ensures
        r.description@ == name@ + rest@,
{
    let mut description: String = name.clone();
    description.append(rest);
    FailedValidation { description }
}

fn copy_text(v: &Option<String>) -> (r: Option<String>)
    ensures
        r == *v,
{
    match v {
        Some(s) => Some(s.clone()),
        None => None,
    }
}

/// The validations that a cell fails. `has_display` says whether the cell
/// shows a value, `invalid_key` whether the primary key of its row is shared.
pub fn validate(column: &Column, row_oid: i64, has_display: bool, invalid_key: bool) -> (r: Vec<
    FailedValidation,
>)
    ensures
        descriptions(r@) == validation_texts(*column, row_oid, has_display, invalid_key),
{
    let mut failed: Vec<FailedValidation> = Vec::new();
    assert(descriptions(failed@) =~= Seq::empty());
    if !column.is_nullable && !has_display {
        let f: FailedValidation = named(&column.column_name, " cannot be NULL!");
        assert(descriptions(failed@.push(f)) =~= descriptions(failed@).push(f.description@));
        failed.push(f);
    }
    if column.is_unique && column.invalid_nonunique_oid.contains(&row_oid) {
        let f: FailedValidation = named(&column.column_name, " value is not unique!");
        assert(descriptions(failed@.push(f)) =~= descriptions(failed@).push(f.description@));
        failed.push(f);
    }
    if column.is_primary_key && invalid_key {
        let f: FailedValidation = FailedValidation {
            description: String::from_str("Primary key for this row is not unique!"),
        };
        assert(descriptions(failed@.push(f)) =~= descriptions(failed@).push(f.description@));
        failed.push(f);
    }
    assert(descriptions(failed@) =~= validation_texts(*column, row_oid, has_display, invalid_key));
    failed
}

/// The cells sent for one row of a page: the start of the row with its id
/// and index, then one cell for each column, with the values of `values` in
/// the order of `columns`. Where there is not one value for each column,
/// nothing is sent.
pub fn send_table_data(columns: &Vec<Column>, row_oid: i64, row_index: i64, values: &Vec<CellValue>) -> (r:
    Result<Vec<Cell>, Error>)
    ensures
        values.len() != columns.len() ==> r == Err::<Vec<Cell>, Error>(
            Error::AdHoc("A row was read without a value for each column."),
        ),
        values.len() == columns.len() ==> r is Ok && r->Ok_0@.len() == columns.len() + 1
            && r->Ok_0@[0] == (Cell::RowStart { row_oid, row_index }) && forall|k: int|
            1 <= k <= columns.len() ==> cell_shows(
                #[trigger] r->Ok_0@[k],
                columns@[k - 1],
                values@[k - 1],
            ),
{
    if values.len() != columns.len() {
        return Err(Error::AdHoc("A row was read without a value for each column."));
    }
    let mut cells: Vec<Cell> = Vec::new();
    cells.push(Cell::RowStart { row_oid, row_index });
    let mut i: usize = 0;
    while i < columns.len()
        invariant
            i <= columns.len(),
            values.len() == columns.len(),
            cells@.len() == i + 1,
            cells@[0] == (Cell::RowStart { row_oid, row_index }),
            forall|k: int|
                1 <= k <= i ==> cell_shows(#[trigger] cells@[k], columns@[k - 1], values@[k - 1]),
        decreases columns.len() - i,
    {
        let column: &Column = &columns[i];
        let value: &CellValue = &values[i];
        cells.push(
            Cell::ColumnValue {
                table_oid: column.table_oid,
                row_oid: value.row_oid,
                column_oid: column.column_oid,
                column_type: column.column_type,
                true_value: copy_text(&value.true_value),
                display_value: copy_text(&value.display_value),
                failed_validations: validate(
                    column,
                    value.row_oid,
                    value.display_value.is_some(),
                    false,
                ),
            },
        );
        i = i + 1;
    }
    Ok(cells)
}

/// The cells sent for one row that was asked for by its id: that there is no
/// such row; or that there is one, then one cell for each column, with the
/// values of the row in the order of `columns`. Where there is not one value
/// for each column, nothing is sent.
pub fn send_table_row(columns: &Vec<Column>, row: &Option<Vec<CellValue>>) -> (r: Result<
    Vec<RowCell>,
    Error,
>)
    ensures
        match *row {
            None => r is Ok && r->Ok_0@ == seq![RowCell::RowExists { row_exists: false }],
            Some(values) => {
                &&& values.len() != columns.len() ==> r == Err::<Vec<RowCell>, Error>(
                    Error::AdHoc("A row was read without a value for each column."),
                )
                &&& values.len() == columns.len() ==> r is Ok && r->Ok_0@.len() == columns.len() + 1
                    && r->Ok_0@[0] == (RowCell::RowExists { row_exists: true }) && forall|k: int|
                    1 <= k <= columns.len() ==> row_cell_shows(
                        #[trigger] r->Ok_0@[k],
                        columns@[k - 1],
                        values@[k - 1],
                    )
            },
        },
{
    let mut cells: Vec<RowCell> = Vec::new();
    match row {
        None => {
            cells.push(RowCell::RowExists { row_exists: false });
            assert(cells@ =~= seq![RowCell::RowExists { row_exists: false }]);
            Ok(cells)
        },
        Some(values) => {
            if values.len() != columns.len() {
                return Err(Error::AdHoc("A row was read without a value for each column."));
            }
            cells.push(RowCell::RowExists { row_exists: true });
            let mut i: usize = 0;
            while i < columns.len()
                invariant
                    i <= columns.len(),
                    values.len() == columns.len(),
                    cells@.len() == i + 1,
                    cells@[0] == (RowCell::RowExists { row_exists: true }),
                    forall|k: int|
                        1 <= k <= i ==> row_cell_shows(
                            #[trigger] cells@[k],
                            columns@[k - 1],
                            values@[k - 1],
                        ),
                decreases columns.len() - i,
            {
                let column: &Column = &columns[i];
                let value: &CellValue = &values[i];
                cells.push(
                    RowCell::ColumnValue {
                        table_oid: column.table_oid,
                        row_oid: value.row_oid,
                        column_oid: column.column_oid,
                        column_type: column.column_type,
                        true_value: copy_text(&value.true_value),
                        display_value: copy_text(&value.display_value),
                        failed_validations: validate(
                            column,
                            value.row_oid,
                            value.display_value.is_some(),
                            false,
                        ),
                    },
                );
                i = i + 1;
            }
            Ok(cells)
        },
    }
}

// ---------------------------------------------------------------------------
// The ids of a table while rows move up.

/// The ids once the row `id` has moved to `id + 1`.
pub open spec fn renumbered(ids: Set<int>, id: int) -> Set<int> {
    ids.remove(id).insert(id + 1)
}

/// The ids once every row of `order` has moved up by one, one after the other.
pub open spec fn shift_run(ids: Set<int>, order: Seq<i64>) -> Set<int>
    decreases order.len(),
{
    if order.len() == 0 {
        ids
    } else {
        renumbered(shift_run(ids, order.drop_last()), order.last() as int)
    }
}

/// The ids with every id from `bound` upwards raised by one.
pub open spec fn shifted_from(ids: Set<int>, bound: int) -> Set<int> {
    Set::new(|x: int| (ids.contains(x) && x < bound) || (ids.contains(x - 1) && x - 1 >= bound))
}

/// `order` lists the ids of `ids` from `r` upwards, each once, the highest
/// first.
pub open spec fn lists_descending(order: Seq<i64>, ids: Set<int>, r: int) -> bool {
    &&& forall|i: int, j: int| 0 <= i < j < order.len() ==> order[i] > order[j]
    &&& forall|i: int| 0 <= i < order.len() ==> ids.contains(#[trigger] order[i] as int) && order[i] >= r
    &&& forall|x: int| #[trigger] ids.contains(x) && x >= r ==> exists|i: int| 0 <= i < order.len() && #[trigger] order[i] == x
}

/// The ids of a table after the plan of [`insert`] has run on it.
pub open spec fn ids_after_insert(ids: Set<int>, row_oid: i64, order: Seq<i64>) -> Set<int> {
    if ids.contains(row_oid as int) && ids.contains(row_oid - 1) {
        shift_run(ids, order).insert(row_oid as int)
    } else {
        ids.insert(inserted_row_oid(row_oid, ids.contains(row_oid as int), ids.contains(row_oid - 1)))
    }
}

/// Moving the first `k` rows of a descending list up by one raises exactly
/// the ids from the last of them upwards, and the id that the last of them
/// moves to was free.
pub proof fn lemma_shift_prefix(ids: Set<int>, order: Seq<i64>, r: int, k: int)
    requires
        lists_descending(order, ids, r),
        0 < k <= order.len(),
    ensures
        shift_run(ids, order.take(k)) == shifted_from(ids, order[k - 1] as int),
        !shift_run(ids, order.take(k - 1)).contains(order[k - 1] + 1),
    decreases k,
{
    let c = order[k - 1] as int;
    assert(order.take(k).drop_last() =~= order.take(k - 1));
    assert(order.take(k).last() == order[k - 1]);
    assert(ids.contains(c));
    assert(shift_run(ids, order.take(k)) == renumbered(shift_run(ids, order.take(k - 1)), c));
    if k == 1 {
        assert(order.take(0).len() == 0);
        assert(shift_run(ids, order.take(0)) == ids);
        assert forall|x: int| ids.contains(x) && x >= r implies x <= c by {
            let i = choose|i: int| 0 <= i < order.len() && order[i] == x;
            assert(i == 0 || order[0] > order[i]);
        }
        assert(!ids.contains(c + 1));
        assert(renumbered(ids, c) =~= shifted_from(ids, c));
    } else {
        lemma_shift_prefix(ids, order, r, k - 1);
        let b = order[k - 2] as int;
        assert(order[k - 2] > order[k - 1]);
        assert forall|x: int| ids.contains(x) && x > c implies x >= b by {
            let i = choose|i: int| 0 <= i < order.len() && order[i] == x;
            if i > k - 1 {
                assert(order[k - 1] > order[i]);
            }
            if i < k - 2 {
                assert(order[i] > order[k - 2]);
            }
        }
        assert(!shifted_from(ids, b).contains(c + 1));
        assert(renumbered(shifted_from(ids, b), c) =~= shifted_from(ids, c));
    }
}

/// A row inserted before `row_oid` takes `row_oid` where that id is free, the
/// id below where only that one is free, and else `row_oid` after every row
/// from `row_oid` upwards has moved up by one; while the rows move, highest
/// first, none moves to an id in use, and the id that the new row takes is
/// free when it is inserted.
pub proof fn lemma_insert_ids(ids: Set<int>, row_oid: i64, order: Seq<i64>)
    requires
        row_oid > i64::MIN,
        lists_descending(order, ids, row_oid as int),
    ensures
        !ids.contains(row_oid as int) ==> ids_after_insert(ids, row_oid, order) == ids.insert(
            row_oid as int,
        ),
        ids.contains(row_oid as int) && !ids.contains(row_oid - 1) ==> ids_after_insert(
            ids,
            row_oid,
            order,
        ) == ids.insert(row_oid - 1),
        ids.contains(row_oid as int) && ids.contains(row_oid - 1) ==> {
            &&& ids_after_insert(ids, row_oid, order) == shifted_from(ids, row_oid as int).insert(
                row_oid as int,
            )
            &&& !shift_run(ids, order).contains(row_oid as int)
            &&& forall|k: int|
                0 <= k < order.len() ==> !shift_run(ids, order.take(k)).contains(
                    #[trigger] order[k] + 1,
                )
        },
{
    if ids.contains(row_oid as int) && ids.contains(row_oid - 1) {
        let n = order.len() as int;
        let i = choose|i: int| 0 <= i < order.len() && order[i] == row_oid;
        assert(i == n - 1) by {
            if i < n - 1 {
                assert(order[i] > order[n - 1]);
            }
        }
        lemma_shift_prefix(ids, order, row_oid as int, n);
        assert(order.take(n) =~= order);
        assert forall|k: int| 0 <= k < order.len() implies !shift_run(ids, order.take(k)).contains(
            #[trigger] order[k] + 1,
        ) by {
            lemma_shift_prefix(ids, order, row_oid as int, k + 1);
        }
    }
}

/// With the ids 1 to `n` in use, a row inserted before any id from 2 to
/// `n + 1` leaves the ids 1 to `n + 1` in use.
pub proof fn lemma_insert_into_dense(ids: Set<int>, n: int, row_oid: i64, order: Seq<i64>)
    requires
        forall|x: int| ids.contains(x) <==> 1 <= x <= n,
        2 <= row_oid <= n + 1,
        lists_descending(order, ids, row_oid as int),
    ensures
        forall|x: int| ids_after_insert(ids, row_oid, order).contains(x) <==> 1 <= x <= n + 1,
{
    lemma_insert_ids(ids, row_oid, order);
}

} // verus!
