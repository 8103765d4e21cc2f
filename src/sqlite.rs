use crate::store::{SELECT_BY_LOCATION, SELECT_LATEST};
use vstd::prelude::*;

verus! {

/// One stored session as the database hands it back: identifier, location,
/// date text, duration, rating and wave height in hundredths of a foot.
pub type StoredRow = (u32, String, String, u16, u8, i64);

#[verifier::external_type_specification]
#[verifier::external_body]
pub struct ExConnection(rusqlite::Connection);

#[verifier::external_type_specification]
#[verifier::external_body]
pub struct ExSqliteError(rusqlite::Error);

/// Relies on rusqlite's `Connection::open`: opens the database file at
/// `path`, creating it if it is missing.
#[verifier::external_body]
pub(crate) fn open(path: &str) -> (r: Result<rusqlite::Connection, rusqlite::Error>) {
    rusqlite::Connection::open(path)
}

/// Relies on rusqlite's `Connection::execute`: runs one statement, with
/// `texts` bound to the first parameters and `ints` to those after them,
/// and returns the number of rows it changed.
#[verifier::external_body]
pub(crate) fn execute(
    conn: &rusqlite::Connection,
    sql: &str,
    texts: &Vec<String>,
    ints: &Vec<i64>,
) -> (r: Result<usize, rusqlite::Error>) {
    let mut params: Vec<&dyn rusqlite::ToSql> = Vec::new();
    for t in texts.iter() {
        params.push(t);
    }
    for i in ints.iter() {
        params.push(i);
    }
    conn.execute(sql, rusqlite::params_from_iter(params))
}

/// `c` with an ASCII capital letter turned into its small letter.
pub open spec fn ascii_lower(c: char) -> char {
    if 'A' <= c <= 'Z' {
        ((c as u32) + 32) as char
    } else {
        c
    }
}

/// `s` with its ASCII capital letters turned into small ones: two texts
/// equal under SQLite's `NOCASE` collation fold to the same sequence.
pub open spec fn ascii_fold(s: Seq<char>) -> Seq<char> {
    s.map_values(|c: char| ascii_lower(c))
}

/// Relies on rusqlite's `Connection::prepare` and `Statement::query_map`:
/// runs one query with `texts` bound to its parameters and reads each row's
/// first six columns as a `StoredRow`; a row that cannot be read gives the
/// error. Of the rows SQLite returns, it is relied on that a `WHERE ... =
/// ?1 COLLATE NOCASE` filter keeps only rows equal to `?1` once the 26
/// ASCII letters are folded (for a parameter without a NUL character), and
/// that `LIMIT 1` returns at most one row.
#[verifier::external_body]
pub(crate) fn query(
    conn: &rusqlite::Connection,
    sql: &str,
    texts: &Vec<String>,
) -> (r: Result<Vec<StoredRow>, rusqlite::Error>)
    ensures
        sql@ == SELECT_BY_LOCATION@ && texts@.len() == 1 && !texts@[0]@.contains('\0') ==> (
        r matches Ok(rows) ==> forall|i: int|
            0 <= i < rows@.len() ==> ascii_fold((#[trigger] rows@[i]).1@) == ascii_fold(
                texts@[0]@,
            )),
        sql@ == SELECT_LATEST@ ==> (r matches Ok(rows) ==> rows@.len() <= 1),
{
    let mut stmt = conn.prepare(sql)?;
    let rows = stmt.query_map(
        rusqlite::params_from_iter(texts.iter()),
        |row| Ok((row.get(0)?, row.get(1)?, row.get(2)?, row.get(3)?, row.get(4)?, row.get(5)?)),
    )?;
    rows.collect()
}

} // verus!
