//! The single error type shared across the workspace, and the bound on error text that came
//! from someone else.

use vstd::prelude::*;

use crate::text::{parse_u32, push_char, u32_text, u32_value};

verus! {

/// How the database failed, as the logic above it needs to tell failures apart: a lookup
/// that found no row, a pool with no connection free in time, an error the engine itself
/// reported (with its result code as the driver renders it), or anything else.
#[derive(Debug, Clone, PartialEq, Eq)]
pub enum DatabaseFailure {
    RowNotFound,
    PoolTimedOut,
    Engine { code: Option<String> },
    Other,
}

/// The single error type shared across the workspace. Data-access and engine code returns it;
/// the HTTP edge turns it into a response.
///
/// `Database` carries how the database failed and the driver's rendered message; `Internal`
/// carries the rendered message of whatever failed. The type holds only plain values.
#[derive(Debug, Clone, PartialEq, Eq)]
pub enum AppError {
    /// `{0} not found`.
    NotFound(String),
    BadRequest(String),
    Conflict(String),
    Validation(String),
    Database(DatabaseFailure, String),
    /// A third-party host this server only reads from would not answer usefully. Construct
    /// through [`AppError::upstream`], which bounds the text.
    Upstream(String),
    Internal(String),
}

pub type AppResult<T> = Result<T, AppError>;

/// The one "busy, come back" code.
pub const OVERLOADED_CODE: &'static str = "overloaded";

/// Message paired with [`OVERLOADED_CODE`].
pub const OVERLOADED_MESSAGE: &'static str = "The server is busy. Try again shortly.";

/// `Retry-After` seconds on an overload rejection.
pub const OVERLOADED_RETRY_AFTER_SECS: u64 = 1;

/// How much of a third-party error's text this process keeps, wherever it keeps it.
pub const MAX_UPSTREAM_DETAIL_CHARS: usize = 500;

/// The message every server error is answered with in place of its own text.
pub const SCRUBBED_MESSAGE: &'static str = "Internal Error: Something went wrong!";

/// Whether the database refused a request because it is saturated right now: the pool had no
/// connection free in time, or the engine answered busy or locked.
pub open spec fn overloaded(e: AppError) -> bool {
    match e {
        AppError::Database(f, _) => match f {
            DatabaseFailure::PoolTimedOut => true,
            DatabaseFailure::Engine { code } => code matches Some(c) && u32_text(c@) && busy_code(
                u32_value(c@) as nat,
            ),
            _ => false,
        },
        _ => false,
    }
}

/// The stable machine-readable code of each error.
pub open spec fn spec_code(e: AppError) -> Seq<char> {
    if overloaded(e) {
        "overloaded"@
    } else {
        match e {
            AppError::NotFound(_) => "not_found"@,
            AppError::BadRequest(_) => "bad_request"@,
            AppError::Validation(_) => "validation"@,
            AppError::Conflict(_) => "conflict"@,
            AppError::Database(f, _) => if f == DatabaseFailure::RowNotFound {
                "not_found"@
            } else {
                "internal"@
            },
            AppError::Upstream(_) => "upstream"@,
            AppError::Internal(_) => "internal"@,
        }
    }
}

/// The HTTP status each error answers with.
pub open spec fn spec_status(e: AppError) -> int {
    if overloaded(e) {
        503
    } else {
        match e {
            AppError::NotFound(_) => 404,
            AppError::BadRequest(_) => 400,
            AppError::Validation(_) => 422,
            AppError::Conflict(_) => 409,
            AppError::Database(f, _) => if f == DatabaseFailure::RowNotFound {
                404
            } else {
                500
            },
            AppError::Upstream(_) => 502,
            AppError::Internal(_) => 500,
        }
    }
}

/// What the error says, as its `Display` renders it.
pub open spec fn spec_message(e: AppError) -> Seq<char> {
    match e {
        AppError::NotFound(what) => what@ + " not found"@,
        AppError::BadRequest(m) => m@,
        AppError::Validation(m) => m@,
        AppError::Conflict(m) => m@,
        AppError::Database(_, m) => m@,
        AppError::Upstream(m) => m@,
        AppError::Internal(m) => m@,
    }
}

/// The message a client is shown: its own for a client error, the scrubbed sentence for any
/// server error, so no internal detail ever leaves the process.
pub open spec fn client_message(e: AppError) -> Seq<char> {
    if spec_status(e) >= 500 {
        "Internal Error: Something went wrong!"@
    } else {
        spec_message(e)
    }
}

/// The marker appended to text that [`truncate_for_wire`] cut.
pub open spec fn truncation_marker() -> Seq<char> {
    "… (truncated)"@
}

/// `text` bounded to `max_chars` characters, marked when anything was cut.
pub open spec fn truncated_for_wire(text: Seq<char>, max_chars: nat) -> Seq<char> {
    if text.len() > max_chars {
        text.take(max_chars as int) + truncation_marker()
    } else {
        text
    }
}

impl AppError {
    pub fn bad_request(msg: String) -> (e: Self)
        ensures
            e == AppError::BadRequest(msg),
    {
        AppError::BadRequest(msg)
    }

    pub fn validation(msg: String) -> (e: Self)
        ensures
            e == AppError::Validation(msg),
    {
        AppError::Validation(msg)
    }

    pub fn conflict(msg: String) -> (e: Self)
        ensures
            e == AppError::Conflict(msg),
    {
        AppError::Conflict(msg)
    }

    /// Wrap the rendered text of a failure that came back from a third-party host, bounding
    /// it to [`MAX_UPSTREAM_DETAIL_CHARS`].
    pub fn upstream(detail: &str) -> (e: Self)
        ensures
            e matches AppError::Upstream(m) && m@ == truncated_for_wire(
                detail@,
                MAX_UPSTREAM_DETAIL_CHARS as nat,
            ),
    {
        AppError::Upstream(truncate_for_wire(detail, MAX_UPSTREAM_DETAIL_CHARS))
    }

    /// Whether the database refused this request because it is saturated right now, rather
    /// than because anything is wrong with the request or the schema.
    pub fn is_overloaded(&self) -> (r: bool)
        ensures
            r == overloaded(*self),
    {
        match self {
            AppError::Database(DatabaseFailure::PoolTimedOut, _) => true,
            AppError::Database(DatabaseFailure::Engine { code }, _) => match code {
                Some(c) => sqlite_is_busy(Some(c.as_str())),
                None => sqlite_is_busy(None),
            },
            _ => false,
        }
    }

    /// Stable machine-readable code, independent of the transport.
    pub fn code(&self) -> (c: &'static str)
        ensures
            c@ == spec_code(*self),
    {
        if self.is_overloaded() {
            return OVERLOADED_CODE;
        }
        match self {
            AppError::NotFound(_) => "not_found",
            AppError::BadRequest(_) => "bad_request",
            AppError::Validation(_) => "validation",
            AppError::Conflict(_) => "conflict",
            AppError::Database(DatabaseFailure::RowNotFound, _) => "not_found",
            AppError::Database(_, _) => "internal",
            AppError::Upstream(_) => "upstream",
            AppError::Internal(_) => "internal",
        }
    }

    /// The HTTP status this error answers with: 503 for a saturated database, 502 for an
    /// upstream failure, 500 for anything that is a bug here.
    pub fn status(&self) -> (s: u16)
        ensures
            s == spec_status(*self),
    {
        if self.is_overloaded() {
            return 503;
        }
        match self {
            AppError::NotFound(_) => 404,
            AppError::BadRequest(_) => 400,
            AppError::Validation(_) => 422,
            AppError::Conflict(_) => 409,
            AppError::Database(DatabaseFailure::RowNotFound, _) => 404,
            AppError::Database(_, _) => 500,
            AppError::Upstream(_) => 502,
            AppError::Internal(_) => 500,
        }
    }

    /// The human-readable message — what the error's `Display` renders.
    pub fn message(&self) -> (m: String)
        ensures
            m@ == spec_message(*self),
    {
        match self {
            AppError::NotFound(what) => {
                let mut m = what.clone();
                m.append(" not found");
                m
            },
            AppError::BadRequest(m) => m.clone(),
            AppError::Validation(m) => m.clone(),
            AppError::Conflict(m) => m.clone(),
            AppError::Database(_, m) => m.clone(),
            AppError::Upstream(m) => m.clone(),
            AppError::Internal(m) => m.clone(),
        }
    }

    /// The status and envelope a client receives for this error, unless it is an overload
    /// (which answers with [`overloaded_body`] and a `Retry-After` instead). A server error's
    /// message is scrubbed; its code is kept.
    pub fn response_parts(&self) -> (r: (u16, ErrorBody))
        ensures
            r.0 == spec_status(*self),
            r.1.error.code@ == spec_code(*self),
            r.1.error.message@ == client_message(*self),
    {
        let status = self.status();
        let message = if status >= 500 {
            String::from_str(SCRUBBED_MESSAGE)
        } else {
            self.message()
        };
        let code = String::from_str(self.code());
        (status, ErrorBody { error: ErrorDetail { code, message } })
    }
}

/// The envelope of the single "busy, come back" answer.
pub fn overloaded_body() -> (b: ErrorBody)
    ensures
        b.error.code@ == OVERLOADED_CODE@,
        b.error.message@ == OVERLOADED_MESSAGE@,
{
    ErrorBody {
        error: ErrorDetail {
            code: String::from_str(OVERLOADED_CODE),
            message: String::from_str(OVERLOADED_MESSAGE),
        },
    }
}

/// A server error never shows its own text to a client; a client error always does.
pub proof fn lemma_server_errors_are_scrubbed(e: AppError)
    ensures
        spec_status(e) >= 500 ==> client_message(e) == "Internal Error: Something went wrong!"@,
        spec_status(e) < 500 ==> client_message(e) == spec_message(e),
        overloaded(e) ==> spec_status(e) == 503 && spec_code(e) == "overloaded"@,
{
}

/// Whether a SQLite result code means "another writer has it": the primary code (the low
/// byte of the extended code) is `SQLITE_BUSY` (5) or `SQLITE_LOCKED` (6).
pub open spec fn busy_code(code: nat) -> bool {
    code % 256 == 5 || code % 256 == 6
}

/// Whether a database result code, as the driver renders it in decimal, means the database
/// is saturated right now rather than that anything is wrong.
///
/// Masking the low byte is what catches the extended spellings (261, 517, 773 for `BUSY`,
/// 262 for `LOCKED`). Text that is not a `u32` is not busy.
pub fn sqlite_is_busy(code: Option<&str>) -> (r: bool)
    ensures
        r == (code matches Some(c) && u32_text(c@) && busy_code(u32_value(c@) as nat)),
{
    match code {
        None => false,
        Some(c) => match parse_u32(c) {
            None => false,
            Some(v) => {
                let primary = v % 256;
                primary == 5 || primary == 6
            },
        },
    }
}

/// Bound a message that came from outside before it is stored or returned: at most
/// `max_chars` characters are kept, and a marker is appended when any were cut.
///
/// Truncation is by `char`, never by byte, so a multi-byte character is never split.
pub fn truncate_for_wire(text: &str, max_chars: usize) -> (r: String)
    ensures
        r@ == truncated_for_wire(text@, max_chars as nat),
{
    let n = text.unicode_len();
    let mut out = String::new();
    let mut i: usize = 0;
    while i < n && i < max_chars
        invariant
            n == text@.len(),
            i <= n,
            i <= max_chars,
            out@ =~= text@.take(i as int),
        decreases n - i,
    {
        push_char(&mut out, text.get_char(i));
        i = i + 1;
    }
    if i < n {
        out.append("… (truncated)");
    } else {
        assert(text@.take(i as int) =~= text@);
    }
    out
}

/// JSON error envelope: `{ "error": { "code": "...", "message": "..." } }`.
#[derive(Debug)]
pub struct ErrorBody {
    pub error: ErrorDetail,
}

#[derive(Debug)]
pub struct ErrorDetail {
    /// Stable machine-readable code (e.g. `not_found`, `validation`).
    pub code: String,
    /// Human-readable description.
    pub message: String,
}

/// Marks a response whose body is already a proper error envelope, so nothing downstream
/// rewrites it.
#[derive(Clone, Copy, Debug)]
pub struct ErrorAlreadyClothed;

/// The `code` a 5xx body must keep when its message is scrubbed.
#[derive(Clone, Copy, Debug)]
pub struct PreservedErrorCode(pub &'static str);

} // verus!
