use pls::sqlite::ffi::{check_library_version, Error as FfiError, ErrorCode, InitError};
use pls::sqlite::{
    path_to_cstring, str_for_sqlite, str_to_cstring, Batch, BatchStep, Connection, Destructor, Error,
    OpenFlags, OptionalExtension, PrepFlags, TransactionBehavior, SQLITE_OPEN_CREATE,
    SQLITE_OPEN_NO_MUTEX, SQLITE_OPEN_READ_ONLY, SQLITE_OPEN_READ_WRITE, SQLITE_OPEN_URI,
};

#[test]
fn error_kinds_from_result_codes() {
    assert_eq!(FfiError::new(5).code, ErrorCode::DatabaseBusy);
    assert_eq!(FfiError::new(14).code, ErrorCode::CannotOpen);
    assert_eq!(FfiError::new(26).code, ErrorCode::NotADatabase);
    assert_eq!(FfiError::new(1).code, ErrorCode::Unknown);
    assert_eq!(FfiError::new(16).code, ErrorCode::Unknown);
    assert_eq!(FfiError::new(24).code, ErrorCode::Unknown);
    assert_eq!(FfiError::new(0).code, ErrorCode::Unknown);
}

#[test]
fn extended_codes_keep_their_kind() {
    let e = FfiError::new(2314);
    assert_eq!(e.code, ErrorCode::SystemIoFailure);
    assert_eq!(e.extended_code, 2314);
    let e = FfiError::new(517);
    assert_eq!(e.code, ErrorCode::DatabaseBusy);
    for c in [261, 520, 1038, -1, -256, i32::MIN] {
        assert_eq!(FfiError::new(c).code, FfiError::new(c & 0xff).code);
    }
}

#[test]
fn error_text() {
    assert_eq!(
        FfiError::new(5).display_with("database is locked"),
        "Error code 5: database is locked"
    );
    assert_eq!(
        InitError::VersionMismatch { compile_time: 3034001, runtime: 3008000 }.display(),
        "SQLite version mismatch: 3008000 < 3034001"
    );
    assert_eq!(
        InitError::NullFunctionPointer.display(),
        "Some sqlite3_api_routines fields are null"
    );
}

#[test]
fn library_version_check() {
    assert_eq!(check_library_version(None), Err(InitError::NullFunctionPointer));
    assert_eq!(
        check_library_version(Some(3008000)),
        Err(InitError::VersionMismatch { compile_time: 3034001, runtime: 3008000 })
    );
    assert_eq!(check_library_version(Some(3034001)), Ok(()));
    assert_eq!(check_library_version(Some(3045000)), Ok(()));
}

#[test]
fn c_strings() {
    assert_eq!(str_to_cstring("abc").unwrap(), b"abc".to_vec());
    assert_eq!(path_to_cstring("/tmp/é.db").unwrap(), "/tmp/é.db".as_bytes().to_vec());
    match str_to_cstring("ab\0c\0") {
        Err(Error::NulError(i)) => assert_eq!(i, 2),
        _ => panic!("expected a NUL error"),
    }
    match path_to_cstring("\0") {
        Err(Error::NulError(i)) => assert_eq!(i, 0),
        _ => panic!("expected a NUL error"),
    }
}

#[test]
fn strings_for_the_engine() {
    assert_eq!(str_for_sqlite(b""), (0, Destructor::Static));
    assert_eq!(str_for_sqlite(b"select 1"), (8, Destructor::Transient));
}

#[test]
fn flags() {
    let d = OpenFlags::default();
    assert_eq!(d.bits, 0x8046);
    assert_eq!(
        d,
        OpenFlags::from_bits(SQLITE_OPEN_READ_WRITE)
            .union(OpenFlags::from_bits(SQLITE_OPEN_CREATE))
            .union(OpenFlags::from_bits(SQLITE_OPEN_NO_MUTEX))
            .union(OpenFlags::from_bits(SQLITE_OPEN_URI))
    );
    assert!(d.contains(OpenFlags::from_bits(SQLITE_OPEN_CREATE)));
    assert!(!d.contains(OpenFlags::from_bits(SQLITE_OPEN_READ_ONLY)));
    assert_eq!(PrepFlags::default().bits, 0);
}

#[test]
fn optional_results() {
    let ok: Result<i32, Error> = Ok(4);
    assert!(matches!(ok.optional(), Ok(Some(4))));
    let none: Result<i32, Error> = Err(Error::QueryReturnedNoRows);
    assert!(matches!(none.optional(), Ok(None)));
    let bad: Result<i32, Error> = Err(Error::NulError(1));
    assert!(matches!(bad.optional(), Err(Error::NulError(1))));
}

#[test]
fn opening_connections() {
    let c = Connection::open("data.db").unwrap();
    assert_eq!(c.c_path(), b"data.db");
    assert_eq!(c.flags(), OpenFlags::default());
    assert!(c.vfs().is_none());
    assert_eq!(c.transaction_behavior(), TransactionBehavior::Deferred);
    let m = Connection::open_in_memory().unwrap();
    assert_eq!(m.c_path(), b":memory:");
    let ro = OpenFlags::from_bits(SQLITE_OPEN_READ_ONLY);
    let c = Connection::open_with_flags("x.db", ro).unwrap();
    assert_eq!(c.flags(), ro);
    let c = Connection::open_with_flags_and_vfs("x.db", ro, "unix-dotfile").unwrap();
    assert_eq!(c.vfs(), Some(&b"unix-dotfile"[..]));
    let c = Connection::open_in_memory_with_flags(ro).unwrap();
    assert_eq!((c.c_path(), c.flags()), (&b":memory:"[..], ro));
    let c = Connection::open_in_memory_with_flags_and_vfs(ro, "memdb").unwrap();
    assert_eq!(c.vfs(), Some(&b"memdb"[..]));
}

#[test]
fn opening_rejects_nul_bytes() {
    assert!(matches!(Connection::open("a\0b"), Err(Error::NulError(1))));
    assert!(matches!(
        Connection::open_with_flags_and_vfs("ok", OpenFlags::default(), "v\0"),
        Err(Error::NulError(1))
    ));
    assert!(matches!(
        Connection::open_with_flags_and_vfs("\0", OpenFlags::default(), "v\0"),
        Err(Error::NulError(0))
    ));
    assert!(matches!(
        Connection::open_in_memory_with_flags_and_vfs(OpenFlags::default(), "\0"),
        Err(Error::NulError(0))
    ));
}

#[test]
fn decoding_results() {
    assert!(Connection::decode_result(0, None).is_ok());
    match Connection::decode_result(19, Some("UNIQUE constraint failed".to_string())) {
        Err(Error::SqliteFailure(e, Some(m))) => {
            assert_eq!(e.code, ErrorCode::ConstraintViolation);
            assert_eq!(m, "UNIQUE constraint failed");
        }
        _ => panic!("expected an engine failure"),
    }
}

#[test]
fn closing_hands_back_the_connection_on_failure() {
    let c = Connection::open("a.db").unwrap();
    assert!(c.close(0, None).is_ok());
    let c = Connection::open("b.db").unwrap();
    match c.close(5, None) {
        Err((back, Error::SqliteFailure(e, None))) => {
            assert_eq!(back.c_path(), b"b.db");
            assert_eq!(e.code, ErrorCode::DatabaseBusy);
        }
        _ => panic!("expected the connection back"),
    }
}

#[test]
fn batch_steps() {
    let sql = "CREATE TABLE a(x); CREATE TABLE b(y);";
    assert_eq!(Connection::execute_batch(sql, 18), Some(" CREATE TABLE b(y);"));
    assert_eq!(Connection::execute_batch(sql, 0), None);
    assert_eq!(Connection::execute_batch(sql, sql.len()), None);
    let mut batch = Batch::new(sql);
    assert_eq!(batch.next_sql(), Some(sql));
    assert_eq!(batch.advance(18, true), BatchStep::Statement);
    assert_eq!(batch.next_sql(), Some(" CREATE TABLE b(y);"));
    assert_eq!(batch.advance(19, true), BatchStep::Statement);
    assert_eq!(batch.next_sql(), None);
    let mut stuck = Batch::new("garbage");
    assert_eq!(stuck.advance(0, false), BatchStep::Done);
    assert_eq!(stuck.next_sql(), None);
}

#[test]
fn batch_skips_empty_statements_and_overruns() {
    let sql = "; ;SELECT 1;";
    let mut batch = Batch::new(sql);
    assert_eq!(batch.advance(1, false), BatchStep::Again);
    assert_eq!(batch.next_sql(), Some(" ;SELECT 1;"));
    assert_eq!(batch.advance(2, false), BatchStep::Again);
    assert_eq!(batch.next_sql(), Some("SELECT 1;"));
    assert_eq!(batch.advance(100, true), BatchStep::Statement);
    assert_eq!(batch.next_sql(), None);
    let mut tail_only = Batch::new("  ");
    assert_eq!(tail_only.advance(2, false), BatchStep::Done);
    assert_eq!(tail_only.next_sql(), None);
}

#[test]
fn prepare_checks_the_rest_for_a_second_statement() {
    let sql = "SELECT 1; SELECT 2";
    assert_eq!(Connection::prepare_rest(sql, 9), Some(" SELECT 2"));
    assert_eq!(Connection::prepare_rest(sql, sql.len()), Some(""));
    assert_eq!(Connection::prepare_rest(sql, 0), None);
    assert!(matches!(
        Connection::prepare_with_flags(Ok(("s", 9)), Ok(true)),
        Err(Error::MultipleStatement)
    ));
    assert_eq!(Connection::prepare_with_flags(Ok(("s", 9)), Ok(false)).ok(), Some("s"));
    assert_eq!(Connection::prepare_with_flags(Ok(("s", 0)), Ok(true)).ok(), Some("s"));
    assert!(matches!(
        Connection::prepare_with_flags(Ok(("s", 9)), Err(Error::NulError(3))),
        Err(Error::NulError(3))
    ));
    assert!(matches!(
        Connection::prepare_with_flags::<&str>(Err(Error::QueryReturnedNoRows), Ok(true)),
        Err(Error::QueryReturnedNoRows)
    ));
}

#[test]
fn query_row_outcomes() {
    assert_eq!(Connection::query_row(Some(7)).ok(), Some(7));
    assert!(matches!(Connection::query_row::<i32>(None), Err(Error::QueryReturnedNoRows)));
    assert_eq!(Connection::query_one(Some("a"), false).ok(), Some("a"));
    assert!(matches!(
        Connection::query_one(Some(1), true),
        Err(Error::QueryReturnedMoreThanOneRow)
    ));
    assert!(matches!(Connection::query_one::<u8>(None, true), Err(Error::QueryReturnedNoRows)));
    assert!(matches!(Connection::query_one::<u8>(None, false), Err(Error::QueryReturnedNoRows)));
}

#[test]
fn execute_refuses_rows() {
    assert_eq!(Connection::execute(false, 3).ok(), Some(3));
    assert!(matches!(Connection::execute(true, 3), Err(Error::ExecuteReturnedResults)));
}

#[test]
fn readonly_answers() {
    assert_eq!(Connection::is_readonly("main", 0).ok(), Some(false));
    assert_eq!(Connection::is_readonly("main", 1).ok(), Some(true));
    match Connection::is_readonly("aux", -1) {
        Err(Error::SqliteFailure(e, Some(m))) => {
            assert_eq!(e.code, ErrorCode::ApiMisuse);
            assert_eq!(m, "\"aux\" is not the name of a database");
        }
        other => panic!("{:?}", other),
    }
    match Connection::is_readonly("main", 7) {
        Err(Error::SqliteFailure(e, Some(m))) => {
            assert_eq!(e.extended_code, 7);
            assert_eq!(m, "Unexpected result");
        }
        other => panic!("{:?}", other),
    }
}

#[test]
fn query_row_and_then_and_db_name() {
    assert_eq!(Connection::query_row_and_then(Some(Ok::<i32, Error>(4))).ok(), Some(4));
    assert!(matches!(
        Connection::query_row_and_then::<i32>(Some(Err(Error::NulError(1)))),
        Err(Error::NulError(1))
    ));
    assert!(matches!(
        Connection::query_row_and_then::<i32>(None),
        Err(Error::QueryReturnedNoRows)
    ));
    assert_eq!(Connection::db_name(0, Some("main".to_string())).ok(), Some("main".to_string()));
    assert!(matches!(Connection::db_name(5, None), Err(Error::InvalidDatabaseIndex(5))));
}
