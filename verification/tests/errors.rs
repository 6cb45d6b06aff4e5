//! Error-record conversion: severity decoding and field carry-over.

use spiext::error::{
    ErrorData, LogLevel, PostgresError, ELEVEL_DEBUG1, ELEVEL_DEBUG3, ELEVEL_DEBUG5, ELEVEL_FATAL,
    ELEVEL_INFO, ELEVEL_LOG, ELEVEL_LOG_SERVER_ONLY, ELEVEL_NOTICE, ELEVEL_PANIC, ELEVEL_WARNING,
    ELEVEL_ERROR,
};

fn level_of(raw: u32) -> LogLevel {
    PostgresError::from(ErrorData::with_message(raw, 0, String::from("m"))).elevel
}

#[test]
fn severity_decoding_matches_the_engine_levels() {
    assert_eq!(level_of(ELEVEL_DEBUG5), LogLevel::DEBUG5);
    assert_eq!(level_of(ELEVEL_DEBUG3), LogLevel::DEBUG5);
    assert_eq!(level_of(ELEVEL_DEBUG1), LogLevel::DEBUG5);
    assert_eq!(level_of(ELEVEL_LOG), LogLevel::LOG);
    assert_eq!(level_of(ELEVEL_LOG_SERVER_ONLY), LogLevel::LOG_SERVER_ONLY);
    assert_eq!(level_of(ELEVEL_INFO), LogLevel::INFO);
    assert_eq!(level_of(ELEVEL_NOTICE), LogLevel::NOTICE);
    assert_eq!(level_of(ELEVEL_WARNING), LogLevel::WARNING);
    assert_eq!(level_of(ELEVEL_ERROR), LogLevel::ERROR);
    assert_eq!(level_of(ELEVEL_FATAL), LogLevel::FATAL);
    assert_eq!(level_of(ELEVEL_PANIC), LogLevel::PANIC);
}

#[test]
fn unknown_severity_is_treated_as_an_error() {
    assert_eq!(level_of(0), LogLevel::ERROR);
    assert_eq!(level_of(99), LogLevel::ERROR);
}

#[test]
fn conversion_carries_the_diagnostic_fields_over() {
    let mut data = ErrorData::with_message(ELEVEL_ERROR, 123, String::from("boom"));
    data.detail = Some(String::from("the detail"));
    data.hint = Some(String::from("the hint"));
    data.filename = Some(String::from("executor.c"));
    data.lineno = 321;
    data.funcname = Some(String::from("ExecutorRun"));
    data.cursorpos = 4;
    data.saved_errno = 2;
    data.assoc_context = 17;
    let pe = PostgresError::from(data);
    assert_eq!(pe.elevel, LogLevel::ERROR);
    assert_eq!(pe.sqlerrcode, 123);
    assert_eq!(pe.message, Some(String::from("boom")));
    assert_eq!(pe.detail, Some(String::from("the detail")));
    assert_eq!(pe.detail_log, None);
    assert_eq!(pe.hint, Some(String::from("the hint")));
    assert_eq!(pe.filename, Some(String::from("executor.c")));
    assert_eq!(pe.lineno, 321);
    assert_eq!(pe.funcname, Some(String::from("ExecutorRun")));
    assert_eq!(pe.cursorpos, 4);
    assert_eq!(pe.saved_errno, 2);
    assert_eq!(pe.assoc_context, 17);
    assert!(pe.output_to_server);
    assert!(pe.output_to_client);
}

#[test]
fn duplicate_copies_every_field() {
    let mut data = ErrorData::with_message(ELEVEL_WARNING, 9, String::from("warned"));
    data.table_name = Some(String::from("a"));
    data.internalpos = 6;
    let copy = data.duplicate();
    assert_eq!(copy.elevel, data.elevel);
    assert_eq!(copy.sqlerrcode, data.sqlerrcode);
    assert_eq!(copy.message, data.message);
    assert_eq!(copy.table_name, data.table_name);
    assert_eq!(copy.internalpos, data.internalpos);
    assert_eq!(copy.output_to_server, data.output_to_server);
}
