use crate::cstr::{c_string_of, str_to_sqlite3};
use vstd::prelude::*;

verus! {

/// Successful result.
pub const SQLITE_OK: i32 = 0;
/// Generic error.
pub const SQLITE_ERROR: i32 = 1;
/// Library used incorrectly.
pub const SQLITE_MISUSE: i32 = 21;
/// A step produced another row.
pub const SQLITE_ROW: i32 = 100;
/// A step has finished executing.
pub const SQLITE_DONE: i32 = 101;
/// Extension entry point result asking the engine to keep the extension loaded.
pub const SQLITE_OK_LOAD_PERMANENTLY: i32 = 256;

/// The codes that report success: OK, ROW and DONE.
pub open spec fn is_success_code(rc: i32) -> bool {
    rc == SQLITE_OK || rc == SQLITE_ROW || rc == SQLITE_DONE
}

/// Text received from the engine that is not valid UTF-8.
#[derive(Clone, Copy, Debug, PartialEq, Eq)]
pub struct Utf8Error {
    /// Length of the longest valid UTF-8 prefix.
    pub valid_up_to: usize,
    /// Length of the invalid sequence that follows it, or `None` when the input
    /// ended in the middle of a sequence.
    pub error_len: Option<u8>,
}

/// Text bound for the engine that holds a NUL byte.
#[derive(Clone, Copy, Debug, PartialEq, Eq)]
pub struct NulError {
    /// Byte offset of the first NUL.
    pub nul_position: usize,
}

/// Every failure this library reports, convertible back to an engine status code and
/// message with `into_sqlite`.
#[derive(Clone, Debug, PartialEq, Eq)]
pub enum Error {
    /// An error returned by SQLite.
    Sqlite(i32),
    /// A string received from SQLite contains invalid UTF-8.
    Utf8Error(Utf8Error),
    /// A string being passed to SQLite contained an interior nul byte.
    NulError(NulError),
    /// An API was used that the running SQLite version does not support; holds the
    /// version number that is required.
    VersionNotSatisfied(i32),
    /// An arbitrary message chosen by the extension author.
    Module(String),
    /// The result is an unchanged column of an UPDATE and was read as a value.
    NoChange,
}

/// Base-ten digits of `n`.
pub open spec fn digits(n: nat) -> Seq<char>
    decreases n,
{
    let d = seq!['0', '1', '2', '3', '4', '5', '6', '7', '8', '9'];
    if n < 10 {
        seq![d[n as int]]
    } else {
        digits(n / 10).push(d[(n % 10) as int])
    }
}

/// `n` written in base ten, with a leading `-` when negative.
pub open spec fn decimal_text(n: int) -> Seq<char> {
    if n < 0 {
        seq!['-'] + digits((-n) as nat)
    } else {
        digits(n as nat)
    }
}

/// Division rounding toward zero, as machine integers divide.
pub open spec fn trunc_div(a: int, d: int) -> int {
    if a >= 0 {
        a / d
    } else {
        -((-a) / d)
    }
}

/// Remainder of `trunc_div`, with the sign of `a`.
pub open spec fn trunc_rem(a: int, d: int) -> int {
    if a >= 0 {
        a % d
    } else {
        -((-a) % d)
    }
}

/// Relies on the standard `Display` of `i64`: base-ten digits with a leading `-`
/// for negative numbers.
#[verifier::external_body]
fn decimal(n: i128) -> (r: String)
    ensures
        r@ == decimal_text(n as int),
{
    format!("{}", n)
}

/// The message of a version requirement, `v` being `major * 1000000 + minor * 1000 + patch`.
pub open spec fn version_message(v: int) -> Seq<char> {
    "requires SQLite version "@ + decimal_text(trunc_div(v, 1000000)) + "."@ + decimal_text(
        trunc_rem(trunc_div(v, 1000), 1000),
    ) + "."@ + decimal_text(trunc_rem(v, 1000)) + " or above"@
}

/// The message of an invalid UTF-8 error.
pub open spec fn utf8_message(e: Utf8Error) -> Seq<char> {
    match e.error_len {
        Some(n) => "invalid utf-8 sequence of "@ + decimal_text(n as int) + " bytes from index "@
            + decimal_text(e.valid_up_to as int),
        None => "incomplete utf-8 byte sequence from index "@ + decimal_text(e.valid_up_to as int),
    }
}

impl Error {
    /// Convert the return of an SQLite function into a `Result`. OK, ROW and DONE are
    /// success; every other code is an `Error::Sqlite` carrying it.
    pub fn from_sqlite(rc: i32) -> (r: Result<(), Error>)
        ensures
            is_success_code(rc) ==> r is Ok,
            !is_success_code(rc) ==> r == Err::<(), Error>(Error::Sqlite(rc)),
    {
        if rc == SQLITE_OK || rc == SQLITE_ROW || rc == SQLITE_DONE {
            Ok(())
        } else {
            Err(Error::Sqlite(rc))
        }
    }

    /// The message describing this error. `engine_text` is the engine's own string
    /// for the code of an `Error::Sqlite`, when the engine could supply one.
    pub open spec fn message_spec(&self, engine_text: Option<Seq<char>>) -> Seq<char> {
        match self {
            Error::Sqlite(code) => match engine_text {
                Some(t) => t,
                None => "SQLite error "@ + decimal_text(*code as int),
            },
            Error::Utf8Error(e) => utf8_message(*e),
            Error::NulError(e) => "nul byte found in provided data at position: "@ + decimal_text(
                e.nul_position as int,
            ),
            Error::VersionNotSatisfied(v) => version_message(*v as int),
            Error::Module(s) => s@,
            Error::NoChange => "invalid Error::NoChange"@,
        }
    }

    /// Renders the message describing this error; see `message_spec`.
    pub fn message(&self, engine_text: Option<&str>) -> (r: String)
        ensures
            r@ == self.message_spec(
                match engine_text {
                    Some(t) => Some(t@),
                    None => None,
                },
            ),
    {
        match self {
            Error::Sqlite(code) => match engine_text {
                Some(t) => t.to_owned(),
                None => {
                    let mut s = String::from_str("SQLite error ");
                    let d = decimal(*code as i128);
                    s.append(d.as_str());
                    s
                },
            },
            Error::Utf8Error(e) => match e.error_len {
                Some(n) => {
                    let mut s = String::from_str("invalid utf-8 sequence of ");
                    let d = decimal(n as i128);
                    s.append(d.as_str());
                    s.append(" bytes from index ");
                    let d = decimal(e.valid_up_to as i128);
                    s.append(d.as_str());
                    s
                },
                None => {
                    let mut s = String::from_str("incomplete utf-8 byte sequence from index ");
                    let d = decimal(e.valid_up_to as i128);
                    s.append(d.as_str());
                    s
                },
            },
            Error::NulError(e) => {
                let mut s = String::from_str("nul byte found in provided data at position: ");
                let d = decimal(e.nul_position as i128);
                s.append(d.as_str());
                s
            },
            Error::VersionNotSatisfied(v) => {
                let v = *v as i64;
                let (major, minor, patch) = if v >= 0 {
                    (v / 1000000, (v / 1000) % 1000, v % 1000)
                } else {
                    let m = -v;
                    (-(m / 1000000), -((m / 1000) % 1000), -(m % 1000))
                };
                let mut s = String::from_str("requires SQLite version ");
                let d = decimal(major as i128);
                s.append(d.as_str());
                s.append(".");
                let d = decimal(minor as i128);
                s.append(d.as_str());
                s.append(".");
                let d = decimal(patch as i128);
                s.append(d.as_str());
                s.append(" or above");
                s
            },
            Error::Module(m) => m.clone(),
            Error::NoChange => String::from_str("invalid Error::NoChange"),
        }
    }

    /// The status code reported to the engine: an `Error::Sqlite` keeps its code,
    /// every other kind is `SQLITE_ERROR`.
    pub open spec fn code_spec(&self) -> i32 {
        match self {
            Error::Sqlite(code) => *code,
            _ => SQLITE_ERROR,
        }
    }

    /// The status code reported to the engine; see `code_spec`.
    pub fn code(&self) -> (r: i32)
        ensures
            r == self.code_spec(),
    {
        match self {
            Error::Sqlite(code) => *code,
            _ => SQLITE_ERROR,
        }
    }

    /// The message as the engine receives it: a C string, or an empty one when the
    /// message holds a NUL byte.
    pub open spec fn c_message(&self) -> Seq<u8> {
        match c_string_of(self.message_spec(None)) {
            Some(c) => c,
            None => seq![0u8],
        }
    }

    /// Converts this error into what the engine receives: the status code and, where
    /// a message slot was supplied (`want_message`) and the error is not an
    /// `Error::Sqlite`, the message as a C string. When the message cannot become a
    /// C string, an empty one takes its place: this conversion never fails.
    pub fn into_sqlite(&self, want_message: bool) -> (r: (i32, Option<Vec<u8>>))
        ensures
            r.0 == self.code_spec(),
            r.1 is Some <==> want_message && !(self is Sqlite),
            r.1 is Some ==> r.1.unwrap()@ == self.c_message(),
    {
        match self {
            Error::Sqlite(code) => (*code, None),
            _ => {
                if !want_message {
                    return (SQLITE_ERROR, None);
                }
                let text = self.message(None);
                let c = match str_to_sqlite3(text.as_str()) {
                    Ok(c) => c,
                    Err(_) => {
                        let mut empty: Vec<u8> = Vec::new();
                        empty.push(0u8);
                        empty
                    },
                };
                (SQLITE_ERROR, Some(c))
            },
        }
    }
}

} // verus!
