//! The parts of the SQLite binding that decide, apart from the database
//! engine: the parameters a connection is opened with, C strings, the
//! stepping through a batch of statements, and the decoding of result codes.
//! The engine itself is driven by the caller with what these functions hand
//! back.
pub mod ffi;

use vstd::prelude::*;
use vstd::string::StringSliceAdditionalSpecFns;

verus! {

broadcast use vstd::utf8::encode_utf8_valid_utf8;

/// An error of the SQLite binding.
#[derive(Debug)]
pub enum Error {
    /// The engine reported an error, with its message when there is one.
    SqliteFailure(ffi::Error, Option<String>),
    /// A query expected to return a row returned none.
    QueryReturnedNoRows,
    /// A string meant for the engine holds a NUL byte at this position.
    NulError(usize),
    /// A path is not valid Unicode.
    InvalidPath(String),
    /// A statement expected to return no rows returned some.
    ExecuteReturnedResults,
    /// A query expected to return one row returned more.
    QueryReturnedMoreThanOneRow,
    /// A text meant to hold one statement holds more.
    MultipleStatement,
    /// No attached database has this index.
    InvalidDatabaseIndex(usize),
    /// A text from the engine is not valid UTF-8; it is valid up to this byte.
    Utf8Error(usize),
}

/// How a transaction takes its locks.
#[derive(Clone, Copy, Debug, PartialEq, Eq, Structural)]
pub enum TransactionBehavior {
    Deferred,
    Immediate,
    Exclusive,
}

/// Flags for opening a database.
#[derive(Clone, Copy, Debug, PartialEq, Eq, Structural)]
pub struct OpenFlags {
    pub bits: i32,
}

/// The database is opened read-only.
pub const SQLITE_OPEN_READ_ONLY: i32 = 0x1;
/// The database is opened for reading and writing.
pub const SQLITE_OPEN_READ_WRITE: i32 = 0x2;
/// The database is created if it does not exist.
pub const SQLITE_OPEN_CREATE: i32 = 0x4;
/// The file name may be a URI.
pub const SQLITE_OPEN_URI: i32 = 0x40;
/// The database is held in memory.
pub const SQLITE_OPEN_MEMORY: i32 = 0x80;
/// The connection uses no mutex of its own.
pub const SQLITE_OPEN_NO_MUTEX: i32 = 0x8000;
/// The connection uses a mutex of its own.
pub const SQLITE_OPEN_FULL_MUTEX: i32 = 0x10000;
/// The database is opened with its cache shared.
pub const SQLITE_OPEN_SHARED_CACHE: i32 = 0x20000;
/// The database is opened with a private cache.
pub const SQLITE_OPEN_PRIVATE_CACHE: i32 = 0x40000;
/// The file name may not be a symbolic link.
pub const SQLITE_OPEN_NOFOLLOW: i32 = 0x1000000;
/// Extended result codes are reported.
pub const SQLITE_OPEN_EXRESCODE: i32 = 0x2000000;

/// The default flags: read and write, create, no mutex, URI file names.
pub open spec fn default_open_bits() -> i32 {
    SQLITE_OPEN_READ_WRITE | SQLITE_OPEN_CREATE | SQLITE_OPEN_NO_MUTEX | SQLITE_OPEN_URI
}

impl OpenFlags {
    /// The flags with the given bits.
    pub fn from_bits(bits: i32) -> (r: OpenFlags)
        ensures
            r.bits == bits,
    {
        OpenFlags { bits }
    }

    /// The flags of either set.
    pub fn union(self, other: OpenFlags) -> (r: OpenFlags)
        ensures
            r.bits == self.bits | other.bits,
    {
        OpenFlags { bits: self.bits | other.bits }
    }

    /// Whether all flags of `other` are set.
    pub fn contains(self, other: OpenFlags) -> (r: bool)
        ensures
            r == (self.bits & other.bits == other.bits),
    {
        self.bits & other.bits == other.bits
    }
}

impl Default for OpenFlags {
    fn default() -> (r: OpenFlags)
        ensures
            r.bits == default_open_bits(),
            r.bits == 0x8046,
    {
        assert(SQLITE_OPEN_READ_WRITE | SQLITE_OPEN_CREATE | SQLITE_OPEN_NO_MUTEX
            | SQLITE_OPEN_URI == 0x8046) by (bit_vector);
        OpenFlags {
            bits: SQLITE_OPEN_READ_WRITE | SQLITE_OPEN_CREATE | SQLITE_OPEN_NO_MUTEX
                | SQLITE_OPEN_URI,
        }
    }
}

/// Flags for preparing a statement.
#[derive(Clone, Copy, Debug, PartialEq, Eq, Structural)]
pub struct PrepFlags {
    pub bits: u32,
}

impl Default for PrepFlags {
    fn default() -> (r: PrepFlags)
        ensures
            r.bits == 0,
    {
        PrepFlags { bits: 0 }
    }
}

/// `i` is the position of the first NUL byte of `b`.
pub open spec fn first_nul_at(b: Seq<u8>, i: int) -> bool {
    &&& 0 <= i < b.len()
    &&& b[i] == 0
    &&& forall|j: int| 0 <= j < i ==> b[j] != 0
}

/// Whether `b` holds no NUL byte.
pub open spec fn nul_free(b: Seq<u8>) -> bool {
    forall|j: int| 0 <= j < b.len() ==> b[j] != 0
}

/// The bytes of a C string holding `s` (without its terminating NUL), or the
/// position of the first NUL byte of `s`, which a C string cannot hold.
fn c_string_bytes(s: &str) -> (r: Result<Vec<u8>, Error>)
    ensures
        r is Ok <==> nul_free(s.spec_bytes()),
        r matches Ok(v) ==> v@ == s.spec_bytes(),
        r matches Err(e) ==> (e matches Error::NulError(i) && first_nul_at(s.spec_bytes(), i as int)),
{
    let b = s.as_bytes();
    let mut i: usize = 0;
    while i < b.len()
        invariant
            b@ == s.spec_bytes(),
            i <= b@.len(),
            forall|j: int| 0 <= j < i ==> b@[j] != 0,
        decreases b@.len() - i,
    {
        if b[i] == 0 {
            return Err(Error::NulError(i));
        }
        i = i + 1;
    }
    Ok(s.as_bytes_vec())
}

/// The C string of a string (the bytes without the terminating NUL), or
/// `NulError` at the first NUL byte.
pub fn str_to_cstring(s: &str) -> (r: Result<Vec<u8>, Error>)
    ensures
        r is Ok <==> nul_free(s.spec_bytes()),
        r matches Ok(v) ==> v@ == s.spec_bytes(),
        r matches Err(e) ==> (e matches Error::NulError(i) && first_nul_at(s.spec_bytes(), i as int)),
{
    c_string_bytes(s)
}

/// The C string of a path (the bytes without the terminating NUL), or
/// `NulError` at the first NUL byte.
pub fn path_to_cstring(p: &str) -> (r: Result<Vec<u8>, Error>)
    ensures
        r is Ok <==> nul_free(p.spec_bytes()),
        r matches Ok(v) ==> v@ == p.spec_bytes(),
        r matches Err(e) ==> (e matches Error::NulError(i) && first_nul_at(p.spec_bytes(), i as int)),
{
    c_string_bytes(p)
}

/// How the engine must treat a string handed to it.
#[derive(Clone, Copy, Debug, PartialEq, Eq, Structural)]
pub enum Destructor {
    /// The string lives for ever; the engine may keep pointing at it.
    Static,
    /// The string is transient; the engine must copy it.
    Transient,
}

/// The length and the lifetime class of a string handed to the engine: an
/// empty string is handed as the static empty string, any other one as
/// transient.
pub fn str_for_sqlite(s: &[u8]) -> (r: (u64, Destructor))
    ensures
        r.0 == s@.len(),
        r.1 == (if s@.len() == 0 {
            Destructor::Static
        } else {
            Destructor::Transient
        }),
{
    let len = s.len();
    let dtor_info = if len != 0 {
        Destructor::Transient
    } else {
        Destructor::Static
    };
    (len as u64, dtor_info)
}

/// Turns a query's result into an optional one: no row is `None`.
pub trait OptionalExtension<T> {
    /// Converts a `Result<T>` into a `Result<Option<T>>`.
    fn optional(self) -> Result<Option<T>, Error>;
}

impl<T> OptionalExtension<T> for Result<T, Error> {
    fn optional(self) -> (r: Result<Option<T>, Error>)
        ensures
            self matches Ok(v) ==> r == Ok::<Option<T>, Error>(Some(v)),
            self matches Err(e) ==> (e is QueryReturnedNoRows ==> r == Ok::<Option<T>, Error>(
                None,
            )),
            self matches Err(e) ==> (!(e is QueryReturnedNoRows) ==> r == Err::<Option<T>, Error>(
                e,
            )),
    {
        match self {
            Ok(value) => Ok(Some(value)),
            Err(Error::QueryReturnedNoRows) => Ok(None),
            Err(e) => Err(e),
        }
    }
}

/// The file name of an in-memory database.
pub const MEMORY_PATH: &'static str = ":memory:";

proof fn lemma_memory_path_nul_free()
    ensures
        nul_free(MEMORY_PATH.spec_bytes()),
{
    reveal_strlit(":memory:");
    let chars = MEMORY_PATH@;
    assert(chars.len() == 8);
    assert(vstd::utf8::is_ascii_chars(chars));
    vstd::utf8::is_ascii_chars_encode_utf8(chars);
    assert forall|j: int| 0 <= j < MEMORY_PATH.spec_bytes().len() implies MEMORY_PATH.spec_bytes()[j]
        != 0 by {
        assert(MEMORY_PATH.spec_bytes()[j] == chars[j] as u8);
    }
}

/// A connection to an SQLite database, as far as this library decides it:
/// the C string of the database's file name, the flags and the name of the
/// virtual file system it is opened with, and how its transactions lock.
/// Opening the file in the engine, with these, is the caller's work.
pub struct Connection {
    c_path: Vec<u8>,
    flags: OpenFlags,
    vfs: Option<Vec<u8>>,
    transaction_behavior: TransactionBehavior,
}

/// The bytes of an optional C string.
pub open spec fn opt_bytes(v: Option<Vec<u8>>) -> Option<Seq<u8>> {
    match v {
        Some(b) => Some(b@),
        None => None,
    }
}

impl Connection {
    #[verifier::type_invariant]
    spec fn c_strings(self) -> bool {
        &&& nul_free(self.c_path@)
        &&& self.vfs matches Some(v) ==> nul_free(v@)
    }

    /// The C string of the database's file name.
    pub closed spec fn path_bytes(&self) -> Seq<u8> {
        self.c_path@
    }

    /// The flags the database is opened with.
    pub closed spec fn open_flags(&self) -> OpenFlags {
        self.flags
    }

    /// The C string of the virtual file system's name, if one is named.
    pub closed spec fn vfs_bytes(&self) -> Option<Seq<u8>> {
        opt_bytes(self.vfs)
    }

    /// How the connection's transactions lock.
    pub closed spec fn behavior(&self) -> TransactionBehavior {
        self.transaction_behavior
    }

    /// The C string of the database's file name.
    pub fn c_path(&self) -> (r: &[u8])
        ensures
            r@ == self.path_bytes(),
            nul_free(r@),
    {
        proof {
            use_type_invariant(self);
        }
        self.c_path.as_slice()
    }

    /// The flags the database is opened with.
    pub fn flags(&self) -> (r: OpenFlags)
        ensures
            r == self.open_flags(),
    {
        self.flags
    }

    /// The C string of the virtual file system's name, if one is named.
    pub fn vfs(&self) -> (r: Option<&[u8]>)
        ensures
            self.vfs_bytes() is None ==> r is None,
            self.vfs_bytes() matches Some(b) ==> (r matches Some(s) && s@ == b && nul_free(b)),
    {
        proof {
            use_type_invariant(self);
        }
        match &self.vfs {
            Some(v) => Some(v.as_slice()),
            None => None,
        }
    }

    /// How the connection's transactions lock.
    pub fn transaction_behavior(&self) -> (r: TransactionBehavior)
        ensures
            r == self.behavior(),
    {
        self.transaction_behavior
    }

    /// A connection to the database at `path`, with the default flags.
    pub fn open(path: &str) -> (r: Result<Self, Error>)
        ensures
            r is Ok <==> nul_free(path.spec_bytes()),
            r matches Ok(c) ==> c.path_bytes() == path.spec_bytes() && c.open_flags().bits
                == default_open_bits() && c.vfs_bytes() is None && c.behavior()
                == TransactionBehavior::Deferred,
            r matches Err(e) ==> (e matches Error::NulError(i) && first_nul_at(
                path.spec_bytes(),
                i as int,
            )),
    {
        let flags = OpenFlags::default();
        Self::open_with_flags(path, flags)
    }

    /// A connection to a new in-memory database, with the default flags.
    pub fn open_in_memory() -> (r: Result<Self, Error>)
        ensures
            r matches Ok(c) && c.path_bytes() == MEMORY_PATH.spec_bytes() && c.open_flags().bits
                == default_open_bits() && c.vfs_bytes() is None && c.behavior()
                == TransactionBehavior::Deferred,
    {
        let flags = OpenFlags::default();
        Self::open_in_memory_with_flags(flags)
    }

    /// A connection to the database at `path`, with the given flags.
    pub fn open_with_flags(path: &str, flags: OpenFlags) -> (r: Result<Self, Error>)
        ensures
            r is Ok <==> nul_free(path.spec_bytes()),
            r matches Ok(c) ==> c.path_bytes() == path.spec_bytes() && c.open_flags() == flags
                && c.vfs_bytes() is None && c.behavior() == TransactionBehavior::Deferred,
            r matches Err(e) ==> (e matches Error::NulError(i) && first_nul_at(
                path.spec_bytes(),
                i as int,
            )),
    {
        let c_path = path_to_cstring(path)?;
        Ok(
            Connection {
                c_path,
                flags,
                vfs: None,
                transaction_behavior: TransactionBehavior::Deferred,
            },
        )
    }

    /// A connection to the database at `path`, with the given flags and
    /// virtual file system.
    pub fn open_with_flags_and_vfs(path: &str, flags: OpenFlags, vfs: &str) -> (r: Result<
        Self,
        Error,
    >)
        ensures
            r is Ok <==> nul_free(path.spec_bytes()) && nul_free(vfs.spec_bytes()),
            r matches Ok(c) ==> c.path_bytes() == path.spec_bytes() && c.open_flags() == flags
                && c.vfs_bytes() == Some(vfs.spec_bytes()) && c.behavior()
                == TransactionBehavior::Deferred,
            r matches Err(e) ==> (e matches Error::NulError(i) && (if nul_free(path.spec_bytes()) {
                first_nul_at(vfs.spec_bytes(), i as int)
            } else {
                first_nul_at(path.spec_bytes(), i as int)
            })),
    {
        let c_path = path_to_cstring(path)?;
        let c_vfs = str_to_cstring(vfs)?;
        Ok(
            Connection {
                c_path,
                flags,
                vfs: Some(c_vfs),
                transaction_behavior: TransactionBehavior::Deferred,
            },
        )
    }

    /// A connection to a new in-memory database, with the given flags.
    pub fn open_in_memory_with_flags(flags: OpenFlags) -> (r: Result<Self, Error>)
        ensures
            r matches Ok(c) && c.path_bytes() == MEMORY_PATH.spec_bytes() && c.open_flags()
                == flags && c.vfs_bytes() is None && c.behavior() == TransactionBehavior::Deferred,
    {
        proof {
            lemma_memory_path_nul_free();
        }
        Self::open_with_flags(MEMORY_PATH, flags)
    }

    /// A connection to a new in-memory database, with the given flags and
    /// virtual file system.
    pub fn open_in_memory_with_flags_and_vfs(flags: OpenFlags, vfs: &str) -> (r: Result<
        Self,
        Error,
    >)
        ensures
            r is Ok <==> nul_free(vfs.spec_bytes()),
            r matches Ok(c) ==> c.path_bytes() == MEMORY_PATH.spec_bytes() && c.open_flags()
                == flags && c.vfs_bytes() == Some(vfs.spec_bytes()) && c.behavior()
                == TransactionBehavior::Deferred,
            r matches Err(e) ==> (e matches Error::NulError(i) && first_nul_at(
                vfs.spec_bytes(),
                i as int,
            )),
    {
        proof {
            lemma_memory_path_nul_free();
        }
        Self::open_with_flags_and_vfs(MEMORY_PATH, flags, vfs)
    }

    /// Decodes a result code of the engine: success, or the engine's error
    /// with its message.
    pub fn decode_result(code: i32, message: Option<String>) -> (r: Result<(), Error>)
        ensures
            code == ffi::SQLITE_OK ==> r is Ok,
            code != ffi::SQLITE_OK ==> (r matches Err(Error::SqliteFailure(e, m)) && e
                == ffi::error_of(code) && m == message),
    {
        if code == ffi::SQLITE_OK {
            Ok(())
        } else {
            Err(Error::SqliteFailure(ffi::Error::new(code), message))
        }
    }

    /// Closes the connection, given the result code of closing the database
    /// in the engine (and its message): on failure the connection is handed
    /// back with the error.
    pub fn close(self, code: i32, message: Option<String>) -> (r: Result<(), (Self, Error)>)
        ensures
            code == ffi::SQLITE_OK ==> r is Ok,
            code != ffi::SQLITE_OK ==> (r matches Err((c, Error::SqliteFailure(e, m))) && c
                == self && e == ffi::error_of(code) && m == message),
    {
        match Self::decode_result(code, message) {
            Ok(()) => Ok(()),
            Err(e) => Err((self, e)),
        }
    }

    /// Preparing one statement: the engine prepared the first statement of
    /// `sql` and took its first `tail` bytes. The rest of the text, which is
    /// to be prepared in turn to see whether it holds a second statement, or
    /// `None` when the engine took nothing and there is no rest to look at.
    pub fn prepare_rest(sql: &str, tail: usize) -> (r: Option<&str>)
        requires
            tail <= sql.spec_bytes().len(),
            0 < tail < sql.spec_bytes().len() ==> vstd::utf8::is_char_boundary(
                sql.spec_bytes(),
                tail as int,
            ),
        ensures
            tail == 0 ==> r is None,
            tail > 0 ==> (r matches Some(rest) && rest.spec_bytes() == sql.spec_bytes().subrange(
                tail as int,
                sql.spec_bytes().len() as int,
            )),
    {
        if tail == 0 {
            return None;
        }
        proof {
            vstd::utf8::encode_utf8_valid_utf8(sql@);
            vstd::utf8::is_char_boundary_start_end_of_seq(sql.spec_bytes());
        }
        let (_, rest) = sql.split_at(tail);
        Some(rest)
    }

    /// Prepares one statement, given what the engine answered: `first` is
    /// the outcome of preparing the text (the statement and how many bytes it
    /// took), and `rest` the outcome of preparing the rest of the text after
    /// it (whether that held a statement), which counts only when the first
    /// statement took some bytes. The statement, unless preparing failed or
    /// the text holds a second statement.
    pub fn prepare_with_flags<S>(first: Result<(S, usize), Error>, rest: Result<bool, Error>) -> (r:
        Result<S, Error>)
        ensures
            first matches Err(e) ==> r == Err::<S, Error>(e),
            first matches Ok((s, tail)) ==> (tail == 0 ==> r == Ok::<S, Error>(s)),
            first matches Ok((s, tail)) ==> (tail != 0 ==> (rest matches Err(e) ==> r == Err::<
                S,
                Error,
            >(e))),
            first matches Ok((s, tail)) ==> (tail != 0 ==> (rest == Ok::<bool, Error>(true) ==> r
                matches Err(Error::MultipleStatement))),
            first matches Ok((s, tail)) ==> (tail != 0 ==> (rest == Ok::<bool, Error>(false)
                ==> r == Ok::<S, Error>(s))),
    {
        match first {
            Err(e) => Err(e),
            Ok((stmt, tail)) => {
                if tail == 0 {
                    Ok(stmt)
                } else {
                    match rest {
                        Err(e) => Err(e),
                        Ok(true) => Err(Error::MultipleStatement),
                        Ok(false) => Ok(stmt),
                    }
                }
            },
        }
    }

    /// The result of executing one statement, given whether stepping it
    /// gave a row and how many rows the engine then reports changed: a
    /// statement that returns rows is refused; otherwise the count.
    pub fn execute(gave_row: bool, changes: usize) -> (r: Result<usize, Error>)
        ensures
            gave_row ==> r matches Err(Error::ExecuteReturnedResults),
            !gave_row ==> r == Ok::<usize, Error>(changes),
    {
        if gave_row {
            Err(Error::ExecuteReturnedResults)
        } else {
            Ok(changes)
        }
    }

    /// Whether the database `db_name` is read-only, from the engine's answer
    /// `code`: 1 for read-only, 0 for writable, -1 when no database has that
    /// name (the engine's misuse error, naming it in quotes); any other
    /// answer is an unexpected result.
    pub fn is_readonly(db_name: &str, code: i32) -> (r: Result<bool, Error>)
        ensures
            code == 0 ==> r == Ok::<bool, Error>(false),
            code == 1 ==> r == Ok::<bool, Error>(true),
            code == -1 ==> (r matches Err(Error::SqliteFailure(e, Some(m))) && e == ffi::error_of(
                ffi::SQLITE_MISUSE,
            ) && m@ == seq!['"'] + db_name@ + "\" is not the name of a database"@),
            code != 0 && code != 1 && code != -1 ==> (r matches Err(
                Error::SqliteFailure(e, Some(m)),
            ) && e == ffi::error_of(code) && m@ == "Unexpected result"@),
    {
        if code == 0 {
            Ok(false)
        } else if code == 1 {
            Ok(true)
        } else if code == -1 {
            let mut m = String::new();
            crate::text::push_char(&mut m, '"');
            crate::text::append_str(&mut m, db_name);
            crate::text::append_str(&mut m, "\" is not the name of a database");
            Err(Error::SqliteFailure(ffi::Error::new(ffi::SQLITE_MISUSE), Some(m)))
        } else {
            let mut m = String::new();
            crate::text::append_str(&mut m, "Unexpected result");
            Err(Error::SqliteFailure(ffi::Error::new(code), Some(m)))
        }
    }

    /// The result of a query for one row, given its first row as the caller
    /// mapped it (`None` when the query returned no row); any further rows
    /// are ignored.
    pub fn query_row<T>(first: Option<T>) -> (r: Result<T, Error>)
        ensures
            first matches Some(v) ==> r == Ok::<T, Error>(v),
            first is None ==> r matches Err(Error::QueryReturnedNoRows),
    {
        match first {
            Some(v) => Ok(v),
            None => Err(Error::QueryReturnedNoRows),
        }
    }

    /// The result of a query for one row mapped with a fallible function,
    /// given the outcome of mapping its first row (`None` when the query
    /// returned no row); any further rows are ignored.
    pub fn query_row_and_then<T>(first: Option<Result<T, Error>>) -> (r: Result<T, Error>)
        ensures
            first matches Some(m) ==> r == m,
            first is None ==> r matches Err(Error::QueryReturnedNoRows),
    {
        match first {
            Some(m) => m,
            None => Err(Error::QueryReturnedNoRows),
        }
    }

    /// The schema name of the database at `index`, given the name the engine
    /// has for that index (`None` when it has none).
    pub fn db_name(index: usize, name: Option<String>) -> (r: Result<String, Error>)
        ensures
            name matches Some(n) ==> (r matches Ok(s) && s@ == n@),
            name is None ==> (r matches Err(Error::InvalidDatabaseIndex(i)) && i == index),
    {
        match name {
            Some(n) => Ok(n),
            None => Err(Error::InvalidDatabaseIndex(index)),
        }
    }

    /// The result of a query for exactly one row, given its first row as the
    /// caller mapped it (`None` when the query returned no row) and whether
    /// the query returned a second row.
    pub fn query_one<T>(first: Option<T>, has_second_row: bool) -> (r: Result<T, Error>)
        ensures
            first is None ==> r matches Err(Error::QueryReturnedNoRows),
            first is Some && has_second_row ==> r matches Err(
                Error::QueryReturnedMoreThanOneRow,
            ),
            !has_second_row ==> (first matches Some(v) ==> r == Ok::<T, Error>(v)),
    {
        match first {
            None => Err(Error::QueryReturnedNoRows),
            Some(v) => {
                if has_second_row {
                    Err(Error::QueryReturnedMoreThanOneRow)
                } else {
                    Ok(v)
                }
            },
        }
    }

    /// One step of running a batch of statements: `sql` is the text left to
    /// run, and the engine took its first `tail` bytes for the statement it
    /// just ran. The text left after it, or `None` when the batch is done
    /// (the engine took nothing or everything).
    pub fn execute_batch(sql: &str, tail: usize) -> (r: Option<&str>)
        requires
            0 < tail < sql.spec_bytes().len() ==> vstd::utf8::is_char_boundary(
                sql.spec_bytes(),
                tail as int,
            ),
        ensures
            (tail == 0 || tail >= sql.spec_bytes().len()) ==> r is None,
            0 < tail < sql.spec_bytes().len() ==> (r matches Some(rest) && rest.spec_bytes()
                == sql.spec_bytes().subrange(tail as int, sql.spec_bytes().len() as int)),
    {
        if tail == 0 || tail >= sql.as_bytes().len() {
            return None;
        }
        let (_, rest) = sql.split_at(tail);
        Some(rest)
    }
}

/// A batch of SQL statements being stepped through: the whole text and how
/// many of its bytes the engine has taken so far.
#[derive(Debug)]
pub struct Batch<'sql> {
    sql: &'sql str,
    tail: usize,
}

impl<'sql> Batch<'sql> {
    #[verifier::type_invariant]
    spec fn at_boundary(self) -> bool {
        &&& self.tail <= self.sql.spec_bytes().len()
        &&& 0 < self.tail < self.sql.spec_bytes().len() ==> vstd::utf8::is_char_boundary(
            self.sql.spec_bytes(),
            self.tail as int,
        )
    }

    /// The whole text of the batch.
    pub closed spec fn text(self) -> Seq<u8> {
        self.sql.spec_bytes()
    }

    /// How many bytes of the text the engine has taken.
    pub closed spec fn taken(self) -> int {
        self.tail as int
    }

    /// A batch of the statements of `sql`, none taken yet.
    pub fn new(sql: &'sql str) -> (r: Self)
        ensures
            r.text() == sql.spec_bytes(),
            r.taken() == 0,
    {
        Batch { sql, tail: 0 }
    }

    /// The text the engine is to take its next statement from, or `None` when
    /// the whole text has been taken.
    pub fn next_sql(&self) -> (r: Option<&'sql str>)
        ensures
            self.taken() >= self.text().len() ==> r is None,
            self.taken() < self.text().len() ==> (r matches Some(rest) && rest.spec_bytes()
                == self.text().subrange(self.taken(), self.text().len() as int)),
    {
        proof {
            use_type_invariant(self);
            vstd::utf8::encode_utf8_valid_utf8(self.sql@);
        }
        if self.tail < self.sql.as_bytes().len() {
            let (_, rest) = self.sql.split_at(self.tail);
            Some(rest)
        } else {
            None
        }
    }

    /// Records one step of the engine over the rest of the text: it took
    /// `consumed` more bytes and gave a statement when `has_statement`.
    /// When it took none, or all that was left or more, the batch is done.
    /// The step is `Statement` when the engine gave a statement (it is to be
    /// handed out), else `Again` while text is left and `Done` when none is.
    pub fn advance(&mut self, consumed: usize, has_statement: bool) -> (r: BatchStep)
        requires
            0 < consumed && old(self).taken() + consumed < old(self).text().len()
                ==> vstd::utf8::is_char_boundary(
                old(self).text(),
                old(self).taken() + consumed,
            ),
        ensures
            final(self).text() == old(self).text(),
            consumed == 0 || consumed >= old(self).text().len() - old(self).taken()
                ==> final(self).taken() == old(self).text().len(),
            0 < consumed < old(self).text().len() - old(self).taken() ==> final(self).taken()
                == old(self).taken() + consumed,
            has_statement ==> r == BatchStep::Statement,
            !has_statement && final(self).taken() < final(self).text().len() ==> r
                == BatchStep::Again,
            !has_statement && final(self).taken() >= final(self).text().len() ==> r
                == BatchStep::Done,
    {
        proof {
            use_type_invariant(&*self);
        }
        let n = self.sql.as_bytes().len();
        if consumed == 0 || consumed >= n - self.tail {
            self.tail = n;
        } else {
            self.tail = self.tail + consumed;
        }
        if has_statement {
            BatchStep::Statement
        } else if self.tail < n {
            BatchStep::Again
        } else {
            BatchStep::Done
        }
    }
}

/// What a batch does after one step of the engine.
#[derive(Clone, Copy, Debug, PartialEq, Eq, Structural)]
pub enum BatchStep {
    /// The engine gave a statement: hand it out.
    Statement,
    /// The engine gave no statement and text is left: step again.
    Again,
    /// The engine gave no statement and no text is left: the batch is done.
    Done,
}

} // verus!
