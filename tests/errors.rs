use sqlite3_ext::{
    str_from_sqlite3, str_to_sqlite3, Error, NulError, Utf8Error, SQLITE_DONE, SQLITE_ERROR,
    SQLITE_OK, SQLITE_ROW,
};

#[test]
fn success_codes_are_ok() {
    assert_eq!(Error::from_sqlite(SQLITE_OK), Ok(()));
    assert_eq!(Error::from_sqlite(SQLITE_ROW), Ok(()));
    assert_eq!(Error::from_sqlite(SQLITE_DONE), Ok(()));
}

#[test]
fn other_codes_are_errors_with_their_code() {
    assert_eq!(Error::from_sqlite(SQLITE_ERROR), Err(Error::Sqlite(1)));
    assert_eq!(Error::from_sqlite(5), Err(Error::Sqlite(5)));
    assert_eq!(Error::from_sqlite(-1), Err(Error::Sqlite(-1)));
    assert_eq!(Error::from_sqlite(102), Err(Error::Sqlite(102)));
}

#[test]
fn engine_errors_keep_their_code() {
    assert_eq!(Error::Sqlite(19).into_sqlite(true), (19, None));
    assert_eq!(Error::Sqlite(19).code(), 19);
}

#[test]
fn other_errors_become_generic_with_message() {
    let (code, msg) = Error::Module("boom".to_string()).into_sqlite(true);
    assert_eq!(code, SQLITE_ERROR);
    assert_eq!(msg, Some(b"boom\0".to_vec()));
    assert_eq!(Error::NoChange.into_sqlite(false), (SQLITE_ERROR, None));
    let (code, msg) = Error::NoChange.into_sqlite(true);
    assert_eq!(code, SQLITE_ERROR);
    assert_eq!(msg, Some(b"invalid Error::NoChange\0".to_vec()));
}

#[test]
fn unrepresentable_message_falls_back_to_empty() {
    let (code, msg) = Error::Module("bo\0om".to_string()).into_sqlite(true);
    assert_eq!(code, SQLITE_ERROR);
    assert_eq!(msg, Some(vec![0u8]));
}

#[test]
fn error_messages() {
    assert_eq!(Error::Sqlite(5).message(None), "SQLite error 5");
    assert_eq!(Error::Sqlite(5).message(Some("database is locked")), "database is locked");
    assert_eq!(
        Error::VersionNotSatisfied(3_014_000).message(None),
        "requires SQLite version 3.14.0 or above"
    );
    assert_eq!(
        Error::NulError(NulError { nul_position: 3 }).message(None),
        "nul byte found in provided data at position: 3"
    );
    assert_eq!(
        Error::Utf8Error(Utf8Error { valid_up_to: 2, error_len: Some(1) }).message(None),
        "invalid utf-8 sequence of 1 bytes from index 2"
    );
    assert_eq!(
        Error::Utf8Error(Utf8Error { valid_up_to: 4, error_len: None }).message(None),
        "incomplete utf-8 byte sequence from index 4"
    );
    assert_eq!(Error::Module("custom".to_string()).message(None), "custom");
}

#[test]
fn c_string_round_trip() {
    for s in ["", "hello", "h\u{e9}llo \u{2713} \u{1F600}"] {
        let c = str_to_sqlite3(s).unwrap();
        assert_eq!(c.len(), s.len() + 1);
        assert_eq!(*c.last().unwrap(), 0);
        assert_eq!(str_from_sqlite3(&c).unwrap(), s);
    }
}

#[test]
fn interior_nul_is_rejected() {
    assert_eq!(
        str_to_sqlite3("a\0b\0"),
        Err(Error::NulError(NulError { nul_position: 1 }))
    );
}

#[test]
fn c_string_stops_at_first_nul() {
    assert_eq!(str_from_sqlite3(b"abc\0def\0").unwrap(), "abc");
    assert_eq!(str_from_sqlite3(b"\0").unwrap(), "");
}

#[test]
fn invalid_utf8_from_engine() {
    assert_eq!(
        str_from_sqlite3(&[b'o', b'k', 0xff, 0]),
        Err(Error::Utf8Error(Utf8Error { valid_up_to: 2, error_len: Some(1) }))
    );
    assert_eq!(
        str_from_sqlite3(&[b'a', 0xe2, 0x82, 0]),
        Err(Error::Utf8Error(Utf8Error { valid_up_to: 1, error_len: None }))
    );
}
