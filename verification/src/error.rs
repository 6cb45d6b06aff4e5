//! Error records and the tagged error union.
//!
//! A failed engine operation leaves behind a structured diagnostic record
//! ([`ErrorData`]); the error-catching boundary copies it out and converts it
//! into an owned [`PostgresError`].  The boundary's result type, [`Error`],
//! distinguishes engine-raised failures (recoverable at this layer) from
//! native failures in caller-supplied code (to be re-raised, never handled).

use vstd::prelude::*;

verus! {

/// Raw numeric severity levels as the engine reports them.
pub const ELEVEL_DEBUG5: u32 = 10;

pub const ELEVEL_DEBUG4: u32 = 11;

pub const ELEVEL_DEBUG3: u32 = 12;

pub const ELEVEL_DEBUG2: u32 = 13;

pub const ELEVEL_DEBUG1: u32 = 14;

pub const ELEVEL_LOG: u32 = 15;

pub const ELEVEL_LOG_SERVER_ONLY: u32 = 16;

pub const ELEVEL_INFO: u32 = 17;

pub const ELEVEL_NOTICE: u32 = 18;

pub const ELEVEL_WARNING: u32 = 19;

pub const ELEVEL_ERROR: u32 = 20;

pub const ELEVEL_FATAL: u32 = 21;

pub const ELEVEL_PANIC: u32 = 22;

/// Severity of an engine diagnostic, as surfaced to callers.  The variant
/// names follow the engine's own level names.
#[allow(non_camel_case_types)]
#[derive(Clone, Copy, Debug, PartialEq, Eq, Structural)]
pub enum LogLevel {
    DEBUG5,
    LOG,
    LOG_SERVER_ONLY,
    INFO,
    NOTICE,
    WARNING,
    ERROR,
    FATAL,
    PANIC,
}

/// The structured diagnostic record a failing engine operation leaves
/// pending.  Field meanings follow the engine's own error reporting: a
/// severity, the failing statement's diagnostics (message, detail, hint,
/// error code), the source location that raised it, and the allocation scope
/// the record itself lives in.
#[derive(Debug)]
pub struct ErrorData {
    pub elevel: u32,
    pub output_to_server: bool,
    pub output_to_client: bool,
    pub show_funcname: bool,
    pub hide_stmt: bool,
    pub hide_ctx: bool,
    pub filename: Option<String>,
    pub lineno: u32,
    pub funcname: Option<String>,
    pub domain: Option<String>,
    pub context_domain: Option<String>,
    pub sqlerrcode: u32,
    pub message: Option<String>,
    pub detail: Option<String>,
    pub detail_log: Option<String>,
    pub hint: Option<String>,
    pub context: Option<String>,
    pub message_id: Option<String>,
    pub schema_name: Option<String>,
    pub table_name: Option<String>,
    pub column_name: Option<String>,
    pub datatype_name: Option<String>,
    pub constraint_name: Option<String>,
    pub cursorpos: u32,
    pub internalpos: u32,
    pub internalquery: Option<String>,
    pub saved_errno: u32,
    pub assoc_context: u64,
}

/// An owned engine-originating error with the raw severity decoded.
#[derive(Debug)]
pub struct PostgresError {
    pub elevel: LogLevel,
    pub output_to_server: bool,
    pub output_to_client: bool,
    pub show_funcname: bool,
    pub hide_stmt: bool,
    pub hide_ctx: bool,
    pub filename: Option<String>,
    pub lineno: usize,
    pub funcname: Option<String>,
    pub domain: Option<String>,
    pub context_domain: Option<String>,
    pub sqlerrcode: usize,
    pub message: Option<String>,
    pub detail: Option<String>,
    pub detail_log: Option<String>,
    pub hint: Option<String>,
    pub context: Option<String>,
    pub message_id: Option<String>,
    pub schema_name: Option<String>,
    pub table_name: Option<String>,
    pub column_name: Option<String>,
    pub datatype_name: Option<String>,
    pub constraint_name: Option<String>,
    pub cursorpos: usize,
    pub internalpos: usize,
    pub internalquery: Option<String>,
    pub saved_errno: usize,
    pub assoc_context: u64,
}

/// An opaque payload describing a native failure in caller-supplied code,
/// unrelated to the engine.  It is carried through the boundary unmodified.
#[derive(Clone, Copy, Debug, PartialEq, Eq, Structural)]
pub struct NativeError {
    pub payload: u64,
}

/// Engine-originating or native-originating error.
#[derive(Debug)]
pub enum Error {
    /// Engine-originating error.
    PG(PostgresError),
    /// Native-originating error.
    Rust(NativeError),
}

/// How a raw severity decodes: every debugging level collapses to the finest
/// one, each named level maps to itself, and anything unknown is treated as
/// an ordinary error rather than rejected.
pub open spec fn spec_level_of(raw: u32) -> LogLevel {
    if raw == ELEVEL_DEBUG5 || raw == ELEVEL_DEBUG4 || raw == ELEVEL_DEBUG3 || raw == ELEVEL_DEBUG2
        || raw == ELEVEL_DEBUG1 {
        LogLevel::DEBUG5
    } else if raw == ELEVEL_LOG {
        LogLevel::LOG
    } else if raw == ELEVEL_LOG_SERVER_ONLY {
        LogLevel::LOG_SERVER_ONLY
    } else if raw == ELEVEL_INFO {
        LogLevel::INFO
    } else if raw == ELEVEL_NOTICE {
        LogLevel::NOTICE
    } else if raw == ELEVEL_WARNING {
        LogLevel::WARNING
    } else if raw == ELEVEL_ERROR {
        LogLevel::ERROR
    } else if raw == ELEVEL_FATAL {
        LogLevel::FATAL
    } else if raw == ELEVEL_PANIC {
        LogLevel::PANIC
    } else {
        LogLevel::ERROR
    }
}

/// What converting a raw record yields: the severity is decoded, every other
/// field is carried over unchanged (widened where the owned record uses a
/// wider integer).
pub open spec fn spec_from_error_data(d: ErrorData) -> PostgresError {
    PostgresError {
        elevel: spec_level_of(d.elevel),
        output_to_server: d.output_to_server,
        output_to_client: d.output_to_client,
        show_funcname: d.show_funcname,
        hide_stmt: d.hide_stmt,
        hide_ctx: d.hide_ctx,
        filename: d.filename,
        lineno: d.lineno as usize,
        funcname: d.funcname,
        domain: d.domain,
        context_domain: d.context_domain,
        sqlerrcode: d.sqlerrcode as usize,
        message: d.message,
        detail: d.detail,
        detail_log: d.detail_log,
        hint: d.hint,
        context: d.context,
        message_id: d.message_id,
        schema_name: d.schema_name,
        table_name: d.table_name,
        column_name: d.column_name,
        datatype_name: d.datatype_name,
        constraint_name: d.constraint_name,
        cursorpos: d.cursorpos as usize,
        internalpos: d.internalpos as usize,
        internalquery: d.internalquery,
        saved_errno: d.saved_errno as usize,
        assoc_context: d.assoc_context,
    }
}

/// Copies an optional owned string.
fn dup_opt_string(o: &Option<String>) -> (r: Option<String>)
    ensures
        r == *o,
{
    match o {
        Some(s) => Some(s.clone()),
        None => None,
    }
}

impl ErrorData {
    /// An exact copy of the record, so the pending record can be handed out
    /// while the engine keeps its own.
    pub fn duplicate(&self) -> (r: ErrorData)
        ensures
            r == *self,
    {
        ErrorData {
            elevel: self.elevel,
            output_to_server: self.output_to_server,
            output_to_client: self.output_to_client,
            show_funcname: self.show_funcname,
            hide_stmt: self.hide_stmt,
            hide_ctx: self.hide_ctx,
            filename: dup_opt_string(&self.filename),
            lineno: self.lineno,
            funcname: dup_opt_string(&self.funcname),
            domain: dup_opt_string(&self.domain),
            context_domain: dup_opt_string(&self.context_domain),
            sqlerrcode: self.sqlerrcode,
            message: dup_opt_string(&self.message),
            detail: dup_opt_string(&self.detail),
            detail_log: dup_opt_string(&self.detail_log),
            hint: dup_opt_string(&self.hint),
            context: dup_opt_string(&self.context),
            message_id: dup_opt_string(&self.message_id),
            schema_name: dup_opt_string(&self.schema_name),
            table_name: dup_opt_string(&self.table_name),
            column_name: dup_opt_string(&self.column_name),
            datatype_name: dup_opt_string(&self.datatype_name),
            constraint_name: dup_opt_string(&self.constraint_name),
            cursorpos: self.cursorpos,
            internalpos: self.internalpos,
            internalquery: dup_opt_string(&self.internalquery),
            saved_errno: self.saved_errno,
            assoc_context: self.assoc_context,
        }
    }

    /// A record carrying only a severity, an error code and a message, with
    /// every other diagnostic field empty.
    pub fn with_message(elevel: u32, sqlerrcode: u32, message: String) -> (r: ErrorData)
        ensures
            r.elevel == elevel,
            r.sqlerrcode == sqlerrcode,
            r.message == Some(message),
            r.detail is None,
            r.hint is None,
            r.filename is None,
    {
        ErrorData {
            elevel,
            output_to_server: true,
            output_to_client: true,
            show_funcname: false,
            hide_stmt: false,
            hide_ctx: false,
            filename: None,
            lineno: 0,
            funcname: None,
            domain: None,
            context_domain: None,
            sqlerrcode,
            message: Some(message),
            detail: None,
            detail_log: None,
            hint: None,
            context: None,
            message_id: None,
            schema_name: None,
            table_name: None,
            column_name: None,
            datatype_name: None,
            constraint_name: None,
            cursorpos: 0,
            internalpos: 0,
            internalquery: None,
            saved_errno: 0,
            assoc_context: 0,
        }
    }
}

impl vstd::std_specs::convert::FromSpecImpl<ErrorData> for PostgresError {
    open spec fn obeys_from_spec() -> bool {
        true
    }

    open spec fn from_spec(d: ErrorData) -> PostgresError {
        spec_from_error_data(d)
    }
}

impl From<ErrorData> for PostgresError {
    /// Decode the raw severity and take every other field over unchanged.
    fn from(d: ErrorData) -> (r: PostgresError) {
        let elevel = if d.elevel == ELEVEL_DEBUG5 || d.elevel == ELEVEL_DEBUG4 || d.elevel
            == ELEVEL_DEBUG3 || d.elevel == ELEVEL_DEBUG2 || d.elevel == ELEVEL_DEBUG1 {
            LogLevel::DEBUG5
        } else if d.elevel == ELEVEL_LOG {
            LogLevel::LOG
        } else if d.elevel == ELEVEL_LOG_SERVER_ONLY {
            LogLevel::LOG_SERVER_ONLY
        } else if d.elevel == ELEVEL_INFO {
            LogLevel::INFO
        } else if d.elevel == ELEVEL_NOTICE {
            LogLevel::NOTICE
        } else if d.elevel == ELEVEL_WARNING {
            LogLevel::WARNING
        } else if d.elevel == ELEVEL_ERROR {
            LogLevel::ERROR
        } else if d.elevel == ELEVEL_FATAL {
            LogLevel::FATAL
        } else if d.elevel == ELEVEL_PANIC {
            LogLevel::PANIC
        } else {
            // Unknown severity: treat it as an ordinary error rather than
            // rejecting the record.
            LogLevel::ERROR
        };
        PostgresError {
            elevel,
            output_to_server: d.output_to_server,
            output_to_client: d.output_to_client,
            show_funcname: d.show_funcname,
            hide_stmt: d.hide_stmt,
            hide_ctx: d.hide_ctx,
            filename: d.filename,
            lineno: d.lineno as usize,
            funcname: d.funcname,
            domain: d.domain,
            context_domain: d.context_domain,
            sqlerrcode: d.sqlerrcode as usize,
            message: d.message,
            detail: d.detail,
            detail_log: d.detail_log,
            hint: d.hint,
            context: d.context,
            message_id: d.message_id,
            schema_name: d.schema_name,
            table_name: d.table_name,
            column_name: d.column_name,
            datatype_name: d.datatype_name,
            constraint_name: d.constraint_name,
            cursorpos: d.cursorpos as usize,
            internalpos: d.internalpos as usize,
            internalquery: d.internalquery,
            saved_errno: d.saved_errno as usize,
            assoc_context: d.assoc_context,
        }
    }
}

impl Error {
    /// Extracts the engine-originating payload.  A native failure must be
    /// re-raised by the caller instead, so it is excluded here: this crate's
    /// verified functions never unwind.
    pub fn into_postgres_error(self) -> (r: PostgresError)
        requires
            self matches Error::PG(_),
        ensures
            self == Error::PG(r),
    {
        match self {
            Error::PG(err) => err,
            Error::Rust(_) => vstd::pervasive::unreached(),
        }
    }
}

} // verus!
