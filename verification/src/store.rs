//! The cache store: one table of a `redb` database file, from key bytes to value bytes.
//!
//! A store is made once, from a database that its maker has opened, and is shared by
//! reference from then on. Every lookup runs in a read transaction
//! of its own and every write in a write transaction of its own, so a reader sees an entry
//! whole or not at all, and a caller may use the store from inside a computation that the
//! store is being asked about.

use vstd::prelude::*;

verus! {

#[verifier::external_type_specification]
#[verifier::external_body]
pub struct ExDatabase(redb::Database);

#[verifier::external_type_specification]
#[verifier::external_body]
pub struct ExReadTransaction(redb::ReadTransaction);

#[verifier::external_type_specification]
#[verifier::external_body]
pub struct ExWriteTransaction(redb::WriteTransaction);

#[verifier::external_type_specification]
#[verifier::external_body]
pub struct ExTransactionError(redb::TransactionError);

#[verifier::external_type_specification]
#[verifier::external_body]
pub struct ExTableError(redb::TableError);

#[verifier::external_type_specification]
#[verifier::external_body]
pub struct ExStorageError(redb::StorageError);

#[verifier::external_type_specification]
#[verifier::external_body]
pub struct ExCommitError(redb::CommitError);

/// A `redb::ReadOnlyTable` from byte strings to byte strings: the table as one read
/// transaction sees it. What it holds does not change while it is there.
#[verifier::external_body]
pub struct ReadTable {
    table: redb::ReadOnlyTable<&'static [u8], &'static [u8]>,
}

/// A `redb::Table` from byte strings to byte strings, open for writing in one write
/// transaction.
#[verifier::external_body]
pub struct WriteTable<'txn> {
    table: redb::Table<'txn, &'static [u8], &'static [u8]>,
}

/// The name of the one table that a store keeps its entries in.
pub const CACHE_TABLE: &'static str = "cache";

/// A store in an open database. There is one per database file and process; callers share
/// it by reference.
pub struct Store {
    db: redb::Database,
}

/// The step at which a transaction on the store failed.
#[derive(Clone, Copy, Debug, PartialEq, Eq, Structural)]
pub enum StoreTransactionError {
    /// The transaction could not be begun.
    Begin,
    /// The table could not be opened.
    Table,
    /// The entry could not be read or written.
    Access,
    /// The write could not be committed.
    Commit,
}

impl StoreTransactionError {
    /// True of the failures that a lookup can end in: a lookup commits nothing.
    pub open spec fn in_a_read(self) -> bool {
        self != StoreTransactionError::Commit
    }
}

/// True of an entry that `redb` refuses for its size: a key or a value of more than 3 GiB,
/// or the two together of more than 3.75 GiB.
pub open spec fn exceeds_limits(key: Seq<u8>, value: Seq<u8>) -> bool {
    ||| value.len() > 3 * 1024 * 1024 * 1024
    ||| key.len() > 3 * 1024 * 1024 * 1024
    ||| value.len() + key.len() > 3 * 1024 * 1024 * 1024 + 768 * 1024 * 1024
}

/// The entries of a table as the read transaction that opened it sees them: what
/// `redb::ReadOnlyTable::get` finds there, key by key.
pub uninterp spec fn table_entries(table: ReadTable) -> Map<Seq<u8>, Seq<u8>>;

/// The entries of a table that is open for writing, with what its write transaction has
/// put there so far: what the transaction commits for the table.
pub uninterp spec fn pending_entries(table: WriteTable<'_>) -> Map<Seq<u8>, Seq<u8>>;

/// The bytes under `key` among `entries`, if there are any.
pub open spec fn entry_under(entries: Map<Seq<u8>, Seq<u8>>, key: Seq<u8>) -> Option<Seq<u8>> {
    if entries.contains_key(key) {
        Some(entries[key])
    } else {
        None
    }
}

/// The bytes of what a read found.
pub open spec fn bytes_of(found: Option<Vec<u8>>) -> Option<Seq<u8>> {
    match found {
        Some(bytes) => Some(bytes@),
        None => None,
    }
}

/// True if `found` is what `get_cached` may give for `key`: bytes that are found are those
/// that the table of a read transaction holds under `key`.
pub open spec fn may_be_found(key: Seq<u8>, found: Option<Vec<u8>>) -> bool {
    found matches Some(bytes) ==> exists|table: ReadTable|
        entry_under(#[trigger] table_entries(table), key) == Some(bytes@)
}

/// What a lookup gives for what its read transaction ended in: the bytes that were found,
/// and absence for an entry that is not there and for every failure alike.
pub open spec fn found_in(outcome: Result<Option<Vec<u8>>, StoreTransactionError>) -> Option<
    Vec<u8>,
> {
    match outcome {
        Ok(found) => found,
        Err(_) => None,
    }
}

/// `redb::Database::begin_read`: a read transaction on what has been committed so far.
#[verifier::external_body]
fn begin_read(db: &redb::Database) -> (begun: Result<
    redb::ReadTransaction,
    redb::TransactionError,
>) {
    db.begin_read()
}

/// `redb::ReadTransaction::open_table`, for the table of byte strings named `name`. A table
/// that nobody has written to yet does not exist, which is an error here. The name has to
/// hold a character: `redb::TableDefinition::new` panics on an empty one.
#[verifier::external_body]
fn open_read_table(txn: &redb::ReadTransaction, name: &str) -> (opened: Result<
    ReadTable,
    redb::TableError,
>)
    requires
        name@.len() > 0,
{
    txn.open_table(redb::TableDefinition::new(name)).map(|table| ReadTable { table })
}

/// `redb::ReadOnlyTable::get`, with the bytes of the value copied out of the guard that
/// `redb` hands back. Where the read succeeds, it gives the value that the table holds under
/// `key`, and nothing where the table holds none.
#[verifier::external_body]
fn read_value(table: &ReadTable, key: &[u8]) -> (read: Result<
    Option<Vec<u8>>,
    redb::StorageError,
>)
    ensures
        read matches Ok(found) ==> bytes_of(found) == entry_under(table_entries(*table), key@),
{
    table.table.get(key).map(|found| found.map(|guard| guard.value().to_vec()))
}

/// `redb::Database::begin_write`: a write transaction. It waits for a write transaction
/// that another caller has open.
#[verifier::external_body]
fn begin_write(db: &redb::Database) -> (begun: Result<
    redb::WriteTransaction,
    redb::TransactionError,
>) {
    db.begin_write()
}

/// `redb::WriteTransaction::open_table`, for the table of byte strings named `name`, which
/// is made if it does not exist. The name has to hold a character:
/// `redb::TableDefinition::new` panics on an empty one.
#[verifier::external_body]
fn open_write_table<'txn>(txn: &'txn redb::WriteTransaction, name: &str) -> (opened: Result<
    WriteTable<'txn>,
    redb::TableError,
>)
    requires
        name@.len() > 0,
{
    txn.open_table(redb::TableDefinition::new(name)).map(|table| WriteTable { table })
}

/// `redb::Table::insert`: puts `value` under `key`, in place of what was there, and leaves
/// the other entries as they were. The value that was there is dropped. An entry over the
/// limits is refused before the table is touched.
#[verifier::external_body]
fn insert_value(table: &mut WriteTable<'_>, key: &[u8], value: &[u8]) -> (inserted: Result<
    (),
    redb::StorageError,
>)
    ensures
        inserted is Ok ==> !exceeds_limits(key@, value@),
        inserted is Ok ==> pending_entries(*final(table)) == pending_entries(*old(table)).insert(
            key@,
            value@,
        ),
{
    table.table.insert(key, value).map(|_| ())
}

/// `redb::WriteTransaction::commit`: makes the writes of the transaction visible and durable.
#[verifier::external_body]
fn commit(txn: redb::WriteTransaction) -> (committed: Result<(), redb::CommitError>) {
    txn.commit()
}

impl Store {
    /// The database that the store keeps its entries in.
    pub closed spec fn database(self) -> redb::Database {
        self.db
    }

    /// The store that keeps its entries in `db`.
    pub fn new(db: redb::Database) -> (store: Store)
        ensures
            store.database() == db,
    {
        Store { db }
    }
}

/// Reads the entry under `key_bytes` in a read transaction of its own, and says how the
/// transaction ended: with the bytes of the entry, without an entry, or in a failure. What
/// it gives on `Ok` is what the table of that transaction holds under `key_bytes`.
pub fn lookup(store: &Store, key_bytes: &[u8]) -> (outcome: Result<
    Option<Vec<u8>>,
    StoreTransactionError,
>)
    ensures
        match outcome {
            Ok(found) => exists|table: ReadTable|
                bytes_of(found) == entry_under(#[trigger] table_entries(table), key_bytes@),
            Err(error) => error.in_a_read(),
        },
{
    proof {
        reveal_strlit("cache");
    }
    match begin_read(&store.db) {
        Ok(txn) => match open_read_table(&txn, CACHE_TABLE) {
            Ok(table) => match read_value(&table, key_bytes) {
                Ok(found) => Ok(found),
                Err(_) => Err(StoreTransactionError::Access),
            },
            Err(_) => Err(StoreTransactionError::Table),
        },
        Err(_) => Err(StoreTransactionError::Begin),
    }
}

/// What a caller of the cache gets for the outcome of a lookup: a failure of the store is
/// no error to them, but an entry that is not there.
pub fn found_or_absent(outcome: Result<Option<Vec<u8>>, StoreTransactionError>) -> (found: Option<
    Vec<u8>,
>)
    ensures
        found == found_in(outcome),
{
    match outcome {
        Ok(found) => found,
        Err(_) => None,
    }
}

/// The bytes stored under `key_bytes`, if the store has them and can read them: bytes that
/// are found are those that the table of a read transaction holds under `key_bytes`.
pub fn get_cached(store: &Store, key_bytes: &[u8]) -> (found: Option<Vec<u8>>)
    ensures
        may_be_found(key_bytes@, found),
{
    found_or_absent(lookup(store, key_bytes))
}

/// Stores `value` under `key` in a write transaction of its own, in place of what was
/// there. On `Ok` the table that the transaction committed held `value` under `key`. An
/// entry over the limits of the store is never stored, and its transaction is not
/// committed.
pub fn set_cached(store: &Store, key: &[u8], value: &[u8]) -> (stored: Result<
    (),
    StoreTransactionError,
>)
    ensures
        stored is Ok ==> exists|table: WriteTable<'_>|
            entry_under(#[trigger] pending_entries(table), key@) == Some(value@),
        exceeds_limits(key@, value@) ==> (stored matches Err(error) && error
            != StoreTransactionError::Commit),
{
    proof {
        reveal_strlit("cache");
    }
    let txn = match begin_write(&store.db) {
        Ok(txn) => txn,
        Err(_) => {
            return Err(StoreTransactionError::Begin);
        },
    };
    {
        let mut table = match open_write_table(&txn, CACHE_TABLE) {
            Ok(table) => table,
            Err(_) => {
                return Err(StoreTransactionError::Table);
            },
        };
        match insert_value(&mut table, key, value) {
            Ok(()) => {},
            Err(_) => {
                return Err(StoreTransactionError::Access);
            },
        }
        assert(entry_under(pending_entries(table), key@) == Some(value@));
    }
    match commit(txn) {
        Ok(()) => Ok(()),
        Err(_) => Err(StoreTransactionError::Commit),
    }
}

} // verus!
