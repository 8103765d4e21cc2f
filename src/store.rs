use crate::datetime::{parsed_datetime, DateTime};
use crate::session::Session;
use crate::sqlite::{ascii_fold, execute, open, query, StoredRow};
use vstd::prelude::*;

verus! {

/// Creates the session table unless it is already there.
pub const CREATE_TABLE: &'static str = "CREATE TABLE IF NOT EXISTS sessions (
    id INTEGER PRIMARY KEY AUTOINCREMENT,
    location TEXT NOT NULL,
    datetime DATETIME NOT NULL,
    duration INTEGER NOT NULL,
    rating INTEGER NOT NULL,
    wave_height REAL NOT NULL
)";

/// The wave height is stored in feet and handled in hundredths of a foot.
pub const INSERT_SESSION: &'static str = "INSERT INTO sessions (location, datetime, duration, rating, wave_height) VALUES (?1, ?2, ?3, ?4, CAST(?5 AS REAL) / 100)";

pub const SELECT_ALL: &'static str = "SELECT id, location, datetime, duration, rating, CAST(ROUND(wave_height * 100) AS INTEGER) FROM sessions";

pub const SELECT_BY_LOCATION: &'static str = "SELECT id, location, datetime, duration, rating, CAST(ROUND(wave_height * 100) AS INTEGER) FROM sessions WHERE location = ?1 COLLATE NOCASE";

pub const SELECT_LATEST: &'static str = "SELECT id, location, datetime, duration, rating, CAST(ROUND(wave_height * 100) AS INTEGER) FROM sessions ORDER BY datetime DESC LIMIT 1";

pub const DELETE_SESSION: &'static str = "DELETE FROM sessions WHERE id = ?1";

/// Why a store operation failed.
#[derive(Debug)]
pub enum StoreError {
    /// The database engine refused the operation.
    Engine(rusqlite::Error),
    /// The stored date of the session with this identifier is not in the
    /// canonical format.
    InvalidDate { id: u32 },
}

/// `s` is what the stored `row` holds, its date text read as `date`.
pub open spec fn row_holds(row: StoredRow, date: DateTime, s: Session) -> bool {
    &&& s.id == Some(row.0)
    &&& s.location@ == row.1@
    &&& s.date == date
    &&& s.duration == row.3
    &&& s.rating == row.4
    &&& s.wave_height == row.5
}

/// The rows before `n` all hold a date in the canonical format.
pub open spec fn dates_readable(rows: Seq<StoredRow>, n: int) -> bool {
    forall|i: int| 0 <= i < n ==> (#[trigger] parsed_datetime(rows[i].2@)) is Some
}

/// Builds the session that `row` holds, given what its date text reads as.
pub fn session_from_row(row: &StoredRow, date: Option<DateTime>) -> (r: Result<
    Session,
    StoreError,
>)
    ensures
        match date {
            Some(d) => r matches Ok(s) && row_holds(*row, d, s),
            None => r matches Err(StoreError::InvalidDate { id }) && id == row.0,
        },
{
    match date {
        Some(d) => Ok(
            Session {
                id: Some(row.0),
                location: row.1.clone(),
                date: d,
                duration: row.3,
                rating: row.4,
                wave_height: row.5,
            },
        ),
        None => Err(StoreError::InvalidDate { id: row.0 }),
    }
}

/// Decodes every stored row in order; the first row whose date cannot be
/// read makes the error.
pub fn parse_sessions(rows: &Vec<StoredRow>) -> (r: Result<Vec<Session>, StoreError>)
    ensures
        match r {
            Ok(v) => {
                &&& dates_readable(rows@, rows@.len() as int)
                &&& v@.len() == rows@.len()
                &&& forall|i: int|
                    0 <= i < rows@.len() ==> row_holds(
                        rows@[i],
                        parsed_datetime(rows@[i].2@).unwrap(),
                        #[trigger] v@[i],
                    ) && v@[i].date.wf()
            },
            Err(StoreError::InvalidDate { id }) => exists|i: int|
                0 <= i < rows@.len() && dates_readable(rows@, i) && parsed_datetime(rows@[i].2@)
                    is None && id == rows@[i].0,
            Err(StoreError::Engine(_)) => false,
        },
{
    let mut sessions: Vec<Session> = Vec::new();
    let mut i: usize = 0;
    while i < rows.len()
        invariant
            i <= rows@.len(),
            sessions@.len() == i,
            dates_readable(rows@, i as int),
            forall|j: int|
                0 <= j < i ==> row_holds(
                    rows@[j],
                    parsed_datetime(rows@[j].2@).unwrap(),
                    #[trigger] sessions@[j],
                ) && sessions@[j].date.wf(),
        decreases rows@.len() - i,
    {
        match Database::parse_session(&rows[i]) {
            Ok(s) => {
                sessions.push(s);
            },
            Err(e) => {
                return Err(e);
            },
        }
        i = i + 1;
    }
    Ok(sessions)
}

/// The location that a query's outcome names: that of its first row, and
/// nothing when it returned no row or failed.
pub open spec fn outcome_location(res: Result<Vec<StoredRow>, rusqlite::Error>) -> Option<
    Seq<char>,
> {
    match res {
        Ok(rows) => if rows@.len() > 0 {
            Some(rows@[0].1@)
        } else {
            None
        },
        Err(_) => None,
    }
}

pub open spec fn text_view(t: Option<String>) -> Option<Seq<char>> {
    match t {
        Some(s) => Some(s@),
        None => None,
    }
}

/// The location of the first row a query returned; nothing when it
/// returned none or failed.
pub fn last_location_of(res: Result<Vec<StoredRow>, rusqlite::Error>) -> (r: Option<String>)
    ensures
        text_view(r) == outcome_location(res),
{
    match res {
        Ok(rows) => {
            if rows.len() > 0 {
                Some(rows[0].1.clone())
            } else {
                None
            }
        },
        Err(_) => None,
    }
}

/// The values bound when a session is inserted: location and date text,
/// then duration, rating and wave height.
pub fn insert_values(session: &Session) -> (r: (Vec<String>, Vec<i64>))
    requires
        session.date.wf(),
    ensures
        r.0@.len() == 2,
        r.0@[0]@ == session.location@,
        0 <= session.date.year <= 9999 ==> r.0@[1]@ == session.date.canonical_text(),
        0 <= session.date.year <= 9999 ==> parsed_datetime(r.0@[1]@) == Some(session.date),
        r.1@ == seq![session.duration as i64, session.rating as i64, session.wave_height],
{
    let mut texts: Vec<String> = Vec::new();
    texts.push(session.location.clone());
    texts.push(session.date.to_canonical_string());
    let mut ints: Vec<i64> = Vec::new();
    ints.push(session.duration as i64);
    ints.push(session.rating as i64);
    ints.push(session.wave_height);
    (texts, ints)
}

/// A row that holds the values `insert_values` binds for `s`, under the
/// identifier `id`, decodes to `s` itself with that identifier: the same
/// location, duration, rating and wave height, and the same date (which
/// holds minutes and nothing finer).
pub proof fn lemma_written_row_reads_back(s: Session, id: u32, row: StoredRow)
    requires
        row.0 == id,
        row.1@ == s.location@,
        parsed_datetime(row.2@) == Some(s.date),
        row.3 == s.duration,
        row.4 == s.rating,
        row.5 == s.wave_height,
    ensures
        forall|t: Session|
            #[trigger] row_holds(row, parsed_datetime(row.2@).unwrap(), t) <==> (t.id == Some(id)
                && t.location@ == s.location@ && t.date == s.date && t.duration == s.duration
                && t.rating == s.rating && t.wave_height == s.wave_height),
{
}

/// Maps an engine failure into the store's error.
fn engine<T>(r: Result<T, rusqlite::Error>) -> (out: Result<T, StoreError>)
    ensures
        r is Ok <==> out is Ok,
        r matches Ok(v) ==> out == Ok::<T, StoreError>(v),
        out matches Err(e) ==> e is Engine,
{
    match r {
        Ok(v) => Ok(v),
        Err(e) => Err(StoreError::Engine(e)),
    }
}

/// A connection to the session store.
pub struct Database {
    conn: rusqlite::Connection,
}

impl Database {
    /// Opens the store at `db_path` and creates its table if it is missing.
    pub fn new(db_path: &str) -> (r: Result<Database, StoreError>)
        ensures
            r matches Err(e) ==> e is Engine,
    {
        let conn = engine(open(db_path))?;
        let no_texts: Vec<String> = Vec::new();
        let no_ints: Vec<i64> = Vec::new();
        engine(execute(&conn, CREATE_TABLE, &no_texts, &no_ints))?;
        Ok(Database { conn })
    }

    /// Decodes one stored row; a date text that is not in the canonical
    /// format is an error.
    pub fn parse_session(row: &StoredRow) -> (r: Result<Session, StoreError>)
        ensures
            match parsed_datetime(row.2@) {
                Some(d) => r matches Ok(s) && row_holds(*row, d, s) && s.date.wf(),
                None => r matches Err(StoreError::InvalidDate { id }) && id == row.0,
            },
    {
        let date = DateTime::parse(row.2.as_str());
        session_from_row(row, date)
    }

    /// Stores a new session; the store gives it the next identifier.
    pub fn insert_session(&self, session: &Session) -> (r: Result<(), StoreError>)
        requires
            session.date.wf(),
        ensures
            r matches Err(e) ==> e is Engine,
    {
        let (texts, ints) = insert_values(session);
        engine(execute(&self.conn, INSERT_SESSION, &texts, &ints))?;
        Ok(())
    }

    /// Every stored session whose location equals `location`, ignoring
    /// ASCII case.
    pub fn get_sessions_by_location(&self, location: &str) -> (r: Result<Vec<Session>, StoreError>)
        ensures
            r matches Ok(v) ==> forall|i: int|
                0 <= i < v@.len() ==> (#[trigger] v@[i]).id is Some && v@[i].date.wf(),
            !location@.contains('\0') ==> (r matches Ok(v) ==> forall|i: int|
                0 <= i < v@.len() ==> ascii_fold((#[trigger] v@[i]).location@) == ascii_fold(
                    location@,
                )),
            r matches Err(e) ==> e is Engine || e is InvalidDate,
    {
        let mut texts: Vec<String> = Vec::new();
        texts.push(location.to_owned());
        let rows = engine(query(&self.conn, SELECT_BY_LOCATION, &texts))?;
        parse_sessions(&rows)
    }

    /// Every stored session.
    pub fn get_sessions(&self) -> (r: Result<Vec<Session>, StoreError>)
        ensures
            r matches Ok(v) ==> forall|i: int|
                0 <= i < v@.len() ==> (#[trigger] v@[i]).id is Some && v@[i].date.wf(),
    {
        let no_texts: Vec<String> = Vec::new();
        let rows = engine(query(&self.conn, SELECT_ALL, &no_texts))?;
        parse_sessions(&rows)
    }

    /// Removes the session with identifier `id`, if there is one; removing
    /// an identifier that is not stored changes nothing and is no error.
    pub fn delete_session(&self, id: u64) -> (r: Result<(), StoreError>)
        ensures
            r matches Err(e) ==> e is Engine,
            id > i64::MAX ==> r is Ok,
    {
        if id > i64::MAX as u64 {
            // No stored identifier exceeds the engine's largest integer.
            return Ok(());
        }
        let no_texts: Vec<String> = Vec::new();
        let mut ints: Vec<i64> = Vec::new();
        ints.push(id as i64);
        engine(execute(&self.conn, DELETE_SESSION, &no_texts, &ints))?;
        Ok(())
    }

    /// The location of the session with the latest date, if the store holds
    /// any session and can be read: the location of the one row that the
    /// latest-date query returns, or nothing when it returns none or fails.
    pub fn get_last_location(&self) -> (r: Option<String>)
        ensures
            exists|res: Result<Vec<StoredRow>, rusqlite::Error>|
                (res matches Ok(rows) ==> rows@.len() <= 1) && text_view(r)
                    == #[trigger] outcome_location(res),
    {
        let no_texts: Vec<String> = Vec::new();
        let res = query(&self.conn, SELECT_LATEST, &no_texts);
        let r = last_location_of(res);
        assert(text_view(r) == outcome_location(res));
        r
    }
}

} // verus!
