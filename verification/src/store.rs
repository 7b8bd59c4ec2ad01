//! The store gateway: CRUD over a sqlite connection owned exclusively by the
//! background worker. The table of records is modelled as a map from identity
//! to the record's fields; every trusted wrapper states what its statement
//! does to that map, and the gateway's own contracts are proved from them.
//!
//! Each operation prepares, binds and steps a single statement; no operation
//! spans two statements, and the connection is confined to one owner, so no
//! lock is needed.

use vstd::prelude::*;
use crate::pet::{Pet, PetFields, pet_fields, nul_free};

verus! {

/// Declares sqlite::Connection so it can stand in fields and signatures;
/// the library reads nothing inside it and sees it only through the
/// wrappers below.
#[verifier::external_type_specification]
#[verifier::external_body]
pub struct ExConnection(sqlite::Connection);

/// Declares sqlite::Error, the backend's error type, carried out of the
/// wrappers and mapped to the gateway's own error.
#[verifier::external_type_specification]
#[verifier::external_body]
pub struct ExSqliteError(sqlite::Error);

/// What the pets table of a connection holds: each persisted identity mapped
/// to the record's name, age and category. Only the insert wrapper writes
/// rows, and it admits NUL-free names alone, so every name a table holds
/// reads back intact.
pub uninterp spec fn table_of(conn: sqlite::Connection) -> Map<u64, PetFields>;

/// A failed gateway operation, mapped from the backend's error type.
#[derive(Debug, Clone, PartialEq, Eq)]
pub enum StoreError {
    /// The identity was not present, so nothing was deleted.
    NotFound,
    /// The backend refused the statement; the request is simply dropped.
    Backend,
}

/// The list is exactly the table: every listed record is in the table under
/// its identity, every identity of the table is listed, and the list comes
/// in ascending identity order (so identities are distinct).
pub open spec fn list_matches_table(l: Seq<Pet>, m: Map<u64, PetFields>) -> bool {
    &&& forall|i: int|
        0 <= i < l.len() ==> m.contains_key(#[trigger] l[i].id) && m[l[i].id] == pet_fields(l[i])
    &&& forall|k: u64| m.contains_key(k) ==> exists|i: int| 0 <= i < l.len() && l[i].id == k
    &&& forall|i: int, j: int| 0 <= i < j < l.len() ==> l[i].id < l[j].id
}

/// Relies on sqlite::open: a fresh private in-memory database, reachable only
/// through the returned connection.
#[verifier::external_body]
fn conn_open() -> (r: Result<sqlite::Connection, sqlite::Error>) {
    sqlite::open(":memory:")
}

/// Relies on Connection::execute running one CREATE TABLE statement: on
/// success the pets table exists and holds no row.
#[verifier::external_body]
fn conn_create_table(conn: &mut sqlite::Connection) -> (r: Result<(), sqlite::Error>)
    ensures
        r is Ok ==> forall|k: u64| !table_of(*final(conn)).contains_key(k),
{
    conn.execute(
        "CREATE TABLE pets (id INTEGER PRIMARY KEY, name TEXT NOT NULL, age INTEGER NOT NULL, kind_id INTEGER NOT NULL)",
    )
}

/// Relies on Connection::prepare and Statement::bind/next/read running one
/// INSERT .. RETURNING id statement: on success sqlite assigned an identity
/// not in the table and added exactly this row; a failed statement changes
/// no row, and the sole read after a returned row is of an integer column,
/// which does not fail. The name must hold no NUL: binding stores the full
/// bytes, but reading goes through a C string and stops at the first NUL,
/// so only NUL-free names read back equal to what the table holds.
#[verifier::external_body]
fn exec_insert(conn: &mut sqlite::Connection, name: &str, age: u16, kind_id: u64) -> (r: Result<
    u64,
    sqlite::Error,
>)
    requires
        nul_free(name@),
    ensures
        r matches Ok(id) ==> !table_of(*old(conn)).contains_key(id) && table_of(*final(conn))
            == table_of(*old(conn)).insert(id, (name@, age, kind_id)),
        r is Err ==> table_of(*final(conn)) == table_of(*old(conn)),
{
    let mut st = conn.prepare("INSERT INTO pets (name, age, kind_id) VALUES (?, ?, ?) RETURNING id")?;
    st.bind((1, name))?;
    st.bind((2, age as i64))?;
    st.bind((3, kind_id as i64))?;
    st.next()?;
    let id = st.read::<i64, usize>(0)?;
    Ok(id as u64)
}

/// Relies on Connection::prepare and Statement::next/read running one
/// SELECT .. ORDER BY id statement: the rows are exactly the table's, in
/// ascending identity order, with the columns as our inserts bound them.
#[verifier::external_body]
fn exec_list(conn: &sqlite::Connection) -> (r: Result<Vec<Pet>, sqlite::Error>)
    ensures
        r matches Ok(l) ==> list_matches_table(l@, table_of(*conn)),
{
    let mut st = conn.prepare("SELECT id, name, age, kind_id FROM pets ORDER BY id")?;
    let mut out: Vec<Pet> = Vec::new();
    while st.next()? == sqlite::State::Row {
        out.push(Pet {
            id: st.read::<i64, usize>(0)? as u64,
            name: st.read::<String, usize>(1)?,
            age: st.read::<i64, usize>(2)? as u16,
            kind_id: st.read::<i64, usize>(3)? as u64,
        });
    }
    Ok(out)
}

/// Relies on Connection::prepare and Statement::bind/next/read running one
/// SELECT .. WHERE id = ? statement: a row comes back exactly when the
/// identity is in the table, with the columns as our inserts bound them.
#[verifier::external_body]
fn exec_get(conn: &sqlite::Connection, id: u64) -> (r: Result<Option<Pet>, sqlite::Error>)
    ensures
        r matches Ok(Some(p)) ==> table_of(*conn).contains_key(id) && p.id == id && table_of(
            *conn,
        )[id] == pet_fields(p),
        r matches Ok(o) && o is None ==> !table_of(*conn).contains_key(id),
{
    let mut st = conn.prepare("SELECT name, age, kind_id FROM pets WHERE id = ?")?;
    st.bind((1, id as i64))?;
    if st.next()? != sqlite::State::Row {
        return Ok(None);
    }
    Ok(Some(Pet {
        id,
        name: st.read::<String, usize>(0)?,
        age: st.read::<i64, usize>(1)? as u16,
        kind_id: st.read::<i64, usize>(2)? as u64,
    }))
}

/// Relies on Connection::prepare and Statement::bind/next running one
/// DELETE .. WHERE id = ? statement: on success the identity's row is gone
/// and no other row is touched; a failed statement changes no row.
#[verifier::external_body]
fn exec_delete(conn: &mut sqlite::Connection, id: u64) -> (r: Result<(), sqlite::Error>)
    ensures
        r is Ok ==> table_of(*final(conn)) == table_of(*old(conn)).remove(id),
        r is Err ==> table_of(*final(conn)) == table_of(*old(conn)),
{
    let mut st = conn.prepare("DELETE FROM pets WHERE id = ?")?;
    st.bind((1, id as i64))?;
    st.next()?;
    Ok(())
}

/// The store gateway: an exclusively owned connection whose pets table is
/// the authoritative copy of the entity list.
pub struct Store {
    conn: sqlite::Connection,
}

impl View for Store {
    type V = Map<u64, PetFields>;

    /// The store is its table: identity to record fields.
    closed spec fn view(&self) -> Map<u64, PetFields> {
        table_of(self.conn)
    }
}

impl Store {
    /// Open a fresh, empty in-memory store.
    pub fn open_memory() -> (r: Result<Store, StoreError>)
        ensures
            r matches Ok(st) ==> st@ == Map::<u64, PetFields>::empty(),
            r matches Err(e) ==> e == StoreError::Backend,
    {
        let mut conn = match conn_open() {
            Ok(c) => c,
            Err(_) => {
                return Err(StoreError::Backend);
            },
        };
        match conn_create_table(&mut conn) {
            Ok(()) => Ok(Store { conn }),
            Err(_) => Err(StoreError::Backend),
        }
    }

    /// The full entity list, in the table's identity order.
    pub fn list(&self) -> (r: Result<Vec<Pet>, StoreError>)
        ensures
            r matches Ok(l) ==> list_matches_table(l@, self@),
            r matches Err(e) ==> e == StoreError::Backend,
    {
        match exec_list(&self.conn) {
            Ok(l) => Ok(l),
            Err(_) => Err(StoreError::Backend),
        }
    }

    /// One entity by identity; absent is not an error.
    pub fn get_by_id(&self, id: u64) -> (r: Result<Option<Pet>, StoreError>)
        ensures
            r matches Ok(Some(p)) ==> self@.contains_key(id) && p.id == id && self@[id]
                == pet_fields(p),
            r matches Ok(o) && o is None ==> !self@.contains_key(id),
            r matches Err(e) ==> e == StoreError::Backend,
    {
        match exec_get(&self.conn, id) {
            Ok(o) => Ok(o),
            Err(_) => Err(StoreError::Backend),
        }
    }

    /// Create an entity; on success the result carries the assigned identity
    /// and exactly the given fields, and the table gained exactly that row.
    /// A NUL-free name is a backend limit, like the age fitting its column:
    /// the backend reads text back only up to the first NUL.
    pub fn insert(&mut self, name: &str, age: u16, kind_id: u64) -> (r: Result<Pet, StoreError>)
        requires
            nul_free(name@),
        ensures
            r matches Ok(p) ==> !old(self)@.contains_key(p.id) && p.name@ == name@ && p.age == age
                && p.kind_id == kind_id && final(self)@ == old(self)@.insert(
                p.id,
                (name@, age, kind_id),
            ),
            r is Err ==> final(self)@ == old(self)@,
    {
        match exec_insert(&mut self.conn, name, age, kind_id) {
            Ok(id) => Ok(Pet { id, name: String::from_str(name), age, kind_id }),
            Err(_) => Err(StoreError::Backend),
        }
    }

    /// Delete an entity by identity; an identity not in the table is a
    /// distinct, non-fatal outcome, and the table is then untouched.
    pub fn delete_by_id(&mut self, id: u64) -> (r: Result<(), StoreError>)
        ensures
            r is Ok ==> old(self)@.contains_key(id) && final(self)@ == old(self)@.remove(id),
            r matches Err(e) && e == StoreError::NotFound ==> !old(self)@.contains_key(id)
                && final(self)@ == old(self)@,
            r matches Err(e) && e == StoreError::Backend ==> final(self)@ == old(self)@,
    {
        match exec_get(&self.conn, id) {
            Err(_) => Err(StoreError::Backend),
            Ok(None) => Err(StoreError::NotFound),
            Ok(Some(_)) => match exec_delete(&mut self.conn, id) {
                Ok(()) => Ok(()),
                Err(_) => Err(StoreError::Backend),
            },
        }
    }
}

} // verus!
