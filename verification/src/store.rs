use vstd::prelude::*;

use crate::errors::DbError;
use crate::metadata::{MetaView, PackageMetadata};

verus! {

#[verifier::external_type_specification]
#[verifier::external_body]
pub struct ExConnection(rusqlite::Connection);

#[verifier::external_type_specification]
#[verifier::external_body]
pub struct ExRusqliteError(rusqlite::Error);

/// What the `mods` table of the database behind a connection holds: one
/// metadata record per package id. Only a connection in this library's shape
/// (see `db_ready`) is promised to be described faithfully by this map.
pub uninterp spec fn db_table(conn: rusqlite::Connection) -> Map<Seq<char>, MetaView>;

/// Whether the database behind a connection holds the `mods` table in this
/// library's shape: the five text columns with `id` as the primary key. A
/// foreign file may hold a table of the same name in another shape; of such a
/// connection this is false and the contracts below claim nothing.
pub uninterp spec fn db_ready(conn: rusqlite::Connection) -> bool;

/// Whether any object named `mods` exists behind a connection, of this
/// library's shape or not. Schema creation is a no-op when one does.
pub uninterp spec fn db_mods_object(conn: rusqlite::Connection) -> bool;

/// The table with no rows at all.
pub open spec fn empty_table() -> Map<Seq<char>, MetaView> {
    Map::<Seq<char>, MetaView>::empty()
}

/// Relies on rusqlite::Connection::open_in_memory: a fresh in-memory database
/// holds no tables, so nothing named `mods`.
#[verifier::external_body]
fn open_memory_conn() -> (r: Result<rusqlite::Connection, rusqlite::Error>)
    ensures
        r matches Ok(c) ==> !db_ready(c) && !db_mods_object(c),
{
    rusqlite::Connection::open_in_memory()
}

/// Relies on rusqlite::Connection::execute running CREATE TABLE IF NOT
/// EXISTS: a table in this library's shape is kept with its rows, and where
/// nothing named `mods` existed an empty table in this shape is created;
/// where a foreign object of that name sits, success changes nothing and
/// nothing is claimed; a failed statement changes nothing.
#[verifier::external_body]
fn exec_create_table(conn: &mut rusqlite::Connection) -> (r: Result<(), rusqlite::Error>)
    ensures
        r is Ok ==> db_mods_object(*final(conn)),
        r is Ok ==> (db_ready(*final(conn)) <==> db_ready(*old(conn)) || !db_mods_object(*old(conn))),
        r is Ok && db_ready(*old(conn)) ==> db_table(*final(conn)) == db_table(*old(conn)),
        r is Ok && db_ready(*old(conn)) ==> db_table(*final(conn)).dom().finite(),
        r is Ok && !db_mods_object(*old(conn)) ==> db_table(*final(conn)) == empty_table(),
        r is Ok && !db_mods_object(*old(conn)) ==> db_table(*final(conn)).dom().finite(),
        r is Err ==> db_ready(*final(conn)) == db_ready(*old(conn)),
        r is Err ==> db_table(*final(conn)) == db_table(*old(conn)),
        r is Err ==> db_mods_object(*final(conn)) == db_mods_object(*old(conn)),
{
    let sql = "CREATE TABLE IF NOT EXISTS mods (
            id TEXT PRIMARY KEY,
            title TEXT NOT NULL,
            version TEXT NOT NULL,
            thumbnail TEXT NOT NULL,
            file_path TEXT NOT NULL
        )";
    conn.execute(sql, ()).map(|_| ())
}

/// Relies on rusqlite::Connection::query_row running SELECT EXISTS on the
/// id column: on a table in this library's shape a successful probe tells
/// whether a row with this id is there; on a foreign `mods` object nothing
/// is claimed.
#[verifier::external_body]
fn query_exists(conn: &rusqlite::Connection, id: &String) -> (r: Result<bool, rusqlite::Error>)
    ensures
        r matches Ok(b) ==> (db_ready(*conn) ==> b == db_table(*conn).contains_key(id@)),
{
    conn.query_row("SELECT EXISTS(SELECT 1 FROM mods WHERE id = ?1)", (id,), |row| row.get(0))
}

/// Relies on rusqlite::Connection::execute running INSERT on the `mods`
/// table: on a table in this library's shape a successful insert adds
/// exactly this row, and the primary key makes it fail rather than succeed
/// when the id is already there; on a foreign `mods` object nothing is
/// claimed of success; a failed statement changes nothing.
#[verifier::external_body]
fn exec_insert(conn: &mut rusqlite::Connection, m: &PackageMetadata) -> (r: Result<
    (),
    rusqlite::Error,
>)
    ensures
        r is Ok && db_ready(*old(conn)) ==> db_ready(*final(conn)) && !db_table(
            *old(conn),
        ).contains_key(m.id@) && db_table(*final(conn)) == db_table(*old(conn)).insert(m.id@, m@),
        r is Err ==> db_ready(*final(conn)) == db_ready(*old(conn)) && db_table(*final(conn)) == db_table(
            *old(conn),
        ),
{
    let sql = "INSERT INTO mods (id, title, version, thumbnail, file_path) VALUES (?1, ?2, ?3, ?4, ?5)";
    conn.execute(sql, (&m.id, &m.title, &m.version, &m.thumbnail, &m.file_path)).map(|_| ())
}

/// Relies on rusqlite::Connection::execute running UPDATE on the `mods`
/// table by id: on a table in this library's shape a successful update
/// overwrites every non-key field of the row with this id, and touches
/// nothing when no row has it; on a foreign `mods` object nothing is claimed
/// of success; a failed statement changes nothing.
#[verifier::external_body]
fn exec_update(conn: &mut rusqlite::Connection, m: &PackageMetadata) -> (r: Result<
    (),
    rusqlite::Error,
>)
    ensures
        r is Ok && db_ready(*old(conn)) ==> db_ready(*final(conn)) && db_table(*final(conn)) == (if db_table(
            *old(conn),
        ).contains_key(m.id@) {
            db_table(*old(conn)).insert(m.id@, m@)
        } else {
            db_table(*old(conn))
        }),
        r is Err ==> db_ready(*final(conn)) == db_ready(*old(conn)) && db_table(*final(conn)) == db_table(
            *old(conn),
        ),
{
    let sql = "UPDATE mods SET title = ?1, version = ?2, thumbnail = ?3, file_path = ?4 WHERE id = ?5";
    conn.execute(sql, (&m.title, &m.version, &m.thumbnail, &m.file_path, &m.id)).map(|_| ())
}

/// Relies on rusqlite::Connection::query_row running SELECT of `file_path`
/// by id: on a table in this library's shape a successful lookup returns the
/// stored path, and a missing id makes the lookup fail with no rows rather
/// than answer; on a foreign `mods` object nothing is claimed.
#[verifier::external_body]
fn query_file_path(conn: &rusqlite::Connection, id: &String) -> (r: Result<
    String,
    rusqlite::Error,
>)
    ensures
        r matches Ok(p) ==> (db_ready(*conn) ==> db_table(*conn).contains_key(id@) && p@
            == db_table(*conn)[id@].file_path),
        db_ready(*conn) && !db_table(*conn).contains_key(id@) ==> r is Err,
{
    conn.query_row("SELECT file_path FROM mods WHERE id = ?1", (id,), |row| row.get(0))
}

/// Relies on rusqlite::Statement::query_map running SELECT of every column
/// of `mods`: on a table in this library's shape, whose primary key keeps
/// ids unique, a successful listing returns each stored row exactly once, in
/// storage order; on a foreign `mods` object nothing is claimed.
#[verifier::external_body]
fn query_all_rows(conn: &rusqlite::Connection) -> (r: Result<Vec<PackageMetadata>, rusqlite::Error>)
    ensures
        r matches Ok(v) ==> (db_ready(*conn) ==> db_table(*conn).dom().finite() && v@.len()
            == db_table(*conn).dom().len() && (forall|i: int|
            0 <= i < v@.len() ==> db_table(*conn).contains_key((#[trigger] v@[i])@.id) && db_table(
                *conn,
            )[v@[i]@.id] == v@[i]@) && (forall|i: int, j: int|
            0 <= i < j < v@.len() ==> v@[i]@.id != v@[j]@.id)),
{
    let mut stmt = conn.prepare("SELECT id, title, version, thumbnail, file_path FROM mods")?;
    let rows = stmt.query_map(
        (),
        |row| Ok(
            PackageMetadata {
                id: row.get(0)?,
                title: row.get(1)?,
                version: row.get(2)?,
                thumbnail: row.get(3)?,
                file_path: row.get(4)?,
            },
        ),
    )?;
    rows.collect()
}

/// The human-readable rendering of an underlying database error, as its
/// Display gives it: a function of the error value alone.
pub uninterp spec fn rendered_error_text(e: rusqlite::Error) -> Seq<char>;

/// Relies on rusqlite::Error's Display rendering for a human-readable cause.
#[verifier::external_body]
fn rusqlite_error_text(e: &rusqlite::Error) -> (r: String)
    ensures
        r@ == rendered_error_text(*e),
{
    e.to_string()
}

/// Turns an underlying database failure into this library's error kind,
/// carrying exactly the rendered cause.
fn db_err(e: rusqlite::Error) -> (r: DbError)
    ensures
        r.details@ == rendered_error_text(e),
{
    DbError::new(rusqlite_error_text(&e))
}

/// The fail-open reading of an existence probe's outcome: only a successful
/// `true` answer counts; a failed probe is read as "does not exist".
pub fn fail_open_exists(r: Result<bool, DbError>) -> (b: bool)
    ensures
        b == (r matches Ok(true)),
{
    match r {
        Ok(b) => b,
        Err(_) => false,
    }
}

/// The metadata store: a single `mods` table behind one exclusively owned
/// database connection, keyed by package id. A caller that shares the store
/// across tasks must serialize access to it from outside.
pub struct MetadataStore {
    conn: rusqlite::Connection,
}

impl View for MetadataStore {
    type V = Map<Seq<char>, MetaView>;

    closed spec fn view(&self) -> Map<Seq<char>, MetaView> {
        db_table(self.conn)
    }
}

impl MetadataStore {
    /// Whether the `mods` table behind this store's connection is in this
    /// library's shape. On a foreign file the methods below claim nothing of
    /// a success.
    pub closed spec fn ready(self) -> bool {
        db_ready(self.conn)
    }

    /// Whether anything named `mods` exists behind this store's connection,
    /// of this library's shape or not.
    pub closed spec fn has_mods_object(self) -> bool {
        db_mods_object(self.conn)
    }

    /// Opens a store over a fresh in-memory database and creates its schema,
    /// so a successful open holds an empty table.
    pub fn open_in_memory() -> (r: Result<MetadataStore, DbError>)
        ensures
            r matches Ok(s) ==> s.ready() && s@ == empty_table() && s@.dom().finite(),
    {
        match open_memory_conn() {
            Ok(conn) => {
                let mut s = MetadataStore { conn };
                match s.ensure_schema() {
                    Ok(()) => Ok(s),
                    Err(e) => Err(e),
                }
            },
            Err(e) => Err(db_err(e)),
        }
    }

    /// Wraps an already opened connection, for a caller that keeps the
    /// database in a file of its choosing. Nothing is known of the table
    /// until `ensure_schema` has succeeded.
    pub fn from_connection(conn: rusqlite::Connection) -> (s: MetadataStore)
        ensures
            s@ == db_table(conn),
            s.ready() == db_ready(conn),
    {
        MetadataStore { conn }
    }

    /// Idempotently creates the `mods` table: a table of this library's
    /// shape is kept with its rows, and where nothing named `mods` existed
    /// an empty one is created. A foreign object of that name is left alone,
    /// and such a store never becomes ready.
    pub fn ensure_schema(&mut self) -> (r: Result<(), DbError>)
        ensures
            r is Ok ==> final(self).has_mods_object() && (final(self).ready() <==> (old(
                self,
            ).ready() || !old(self).has_mods_object())),
            r is Ok && old(self).ready() ==> final(self)@ == old(self)@
                && final(self)@.dom().finite(),
            r is Ok && !old(self).has_mods_object() ==> final(self)@ == empty_table()
                && final(self)@.dom().finite(),
            r is Err ==> final(self).ready() == old(self).ready() && final(self)@ == old(self)@
                && final(self).has_mods_object() == old(self).has_mods_object(),
    {
        match exec_create_table(&mut self.conn) {
            Ok(()) => Ok(()),
            Err(e) => Err(db_err(e)),
        }
    }

    /// Probes whether a row with this id is stored. On a ready store a
    /// successful probe answers membership exactly.
    pub fn contains_id(&self, id: &String) -> (r: Result<bool, DbError>)
        ensures
            r matches Ok(b) ==> (self.ready() ==> b == self@.contains_key(id@)),
    {
        match query_exists(&self.conn, id) {
            Ok(b) => Ok(b),
            Err(e) => Err(db_err(e)),
        }
    }

    /// The fail-open existence probe the ingestion path uses: a probe that
    /// fails at the database is read as "does not exist", biasing the caller
    /// toward the insert path. The reading of the probe's outcome is pinned
    /// by `fail_open_exists`; on a ready store a true answer proves the row
    /// is there, while a false answer proves nothing.
    pub fn contains_id_or_false(&self, id: &String) -> (r: bool)
        ensures
            r && self.ready() ==> self@.contains_key(id@),
    {
        fail_open_exists(self.contains_id(id))
    }

    /// Reconciles one record: overwrite the row with this id if one is
    /// there, insert it otherwise. On a ready store a success leaves the old
    /// table with exactly this id now bound to exactly this record; on
    /// failure the table is left as it was.
    pub fn upsert(&mut self, m: &PackageMetadata) -> (r: Result<(), DbError>)
        ensures
            r is Ok && old(self).ready() ==> final(self).ready() && final(self)@ == old(
                self,
            )@.insert(m.id@, m@),
            r is Err ==> final(self).ready() == old(self).ready() && final(self)@ == old(self)@,
    {
        if self.contains_id_or_false(&m.id) {
            match exec_update(&mut self.conn, m) {
                Ok(()) => Ok(()),
                Err(e) => Err(db_err(e)),
            }
        } else {
            match exec_insert(&mut self.conn, m) {
                Ok(()) => Ok(()),
                Err(e) => Err(db_err(e)),
            }
        }
    }

    /// Lists every stored record, one per id, in storage order; no ordering
    /// beyond that is promised. The content clauses hold on a ready store.
    pub fn list(&self) -> (r: Result<Vec<PackageMetadata>, DbError>)
        ensures
            r matches Ok(v) ==> (self.ready() ==> self@.dom().finite() && v@.len()
                == self@.dom().len() && (forall|i: int|
                0 <= i < v@.len() ==> self@.contains_key((#[trigger] v@[i])@.id) && self@[v@[i]@.id]
                    == v@[i]@) && (forall|i: int, j: int|
                0 <= i < j < v@.len() ==> v@[i]@.id != v@[j]@.id)),
    {
        match query_all_rows(&self.conn) {
            Ok(v) => Ok(v),
            Err(e) => Err(db_err(e)),
        }
    }

    /// Looks the stored blob location up by id, for the download path. On a
    /// ready store a stored id yields its recorded path, and an id that was
    /// never stored always fails.
    pub fn file_path_of(&self, id: &String) -> (r: Result<String, DbError>)
        ensures
            r matches Ok(p) ==> (self.ready() ==> self@.contains_key(id@) && p@
                == self@[id@].file_path),
            self.ready() && !self@.contains_key(id@) ==> r is Err,
    {
        match query_file_path(&self.conn, id) {
            Ok(p) => Ok(p),
            Err(e) => Err(db_err(e)),
        }
    }
}

} // verus!
