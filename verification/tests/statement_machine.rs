use odbc_core::column::{strategies_for_columns, ColumnDescriptor};
use odbc_core::decode::CellDatum;
use odbc_core::diag::{DiagnosticError, DiagnosticRecord};
use odbc_core::dispatch::DecodeStrategy;
use odbc_core::render::render_row;
use odbc_core::row::{decode_row, decode_row_for_columns, CellOutcome, RowOutcome};
use odbc_core::statement::{
    ExecOutcome, FetchEvent, FetchStep, Statement, StatementState,
};
use odbc_core::value::Value;

fn column(ordinal: u16, name: &str, type_code: i16) -> ColumnDescriptor {
    ColumnDescriptor {
        ordinal,
        name: String::from(name),
        type_code,
        column_size: None,
        decimal_digits: None,
        nullable: Some(true),
    }
}

fn diag(state: &str, native: i32, message: &str) -> DiagnosticError {
    DiagnosticError {
        records: vec![DiagnosticRecord {
            state: String::from(state),
            native_error: native,
            message: String::from(message),
        }],
    }
}

#[test]
fn statement_lifecycle_with_result_set() {
    let mut st = Statement::new();
    assert_eq!(st.state, StatementState::Created);
    st.on_exec_outcome(ExecOutcome::ResultSet);
    assert_eq!(st.state, StatementState::HasResultSet);
    st.on_columns_described(vec![column(1, "a", -5), column(2, "b", 1)]);
    assert!(st.described);
    assert_eq!(st.columns.len(), 2);
    assert_eq!(st.fetch_next(FetchEvent::Row), FetchStep::GotRow);
    assert_eq!(st.state, StatementState::Fetching);
    assert_eq!(st.fetch_next(FetchEvent::End), FetchStep::EndOfData);
    assert_eq!(st.state, StatementState::Exhausted);
}

#[test]
fn fetch_after_end_of_data_is_idempotent() {
    let mut st = Statement::new();
    st.on_exec_outcome(ExecOutcome::ResultSet);
    st.on_columns_described(vec![column(1, "a", 1)]);
    assert_eq!(st.fetch_next(FetchEvent::End), FetchStep::EndOfData);
    // the cursor is exhausted: every later advance reports end-of-data
    // again, whatever the driver would have answered
    assert_eq!(st.fetch_next(FetchEvent::Row), FetchStep::EndOfData);
    assert_eq!(st.fetch_next(FetchEvent::End), FetchStep::EndOfData);
    assert_eq!(st.state, StatementState::Exhausted);
}

#[test]
fn statement_without_result_set() {
    let mut st = Statement::new();
    st.on_exec_outcome(ExecOutcome::NoData);
    assert_eq!(st.state, StatementState::NoResultSet);
    assert!(st.diagnostic.is_none());
}

#[test]
fn failed_execution_closes_with_diagnostic() {
    let mut st = Statement::new();
    st.on_exec_outcome(ExecOutcome::Failed(diag("42000", 102, "syntax error")));
    assert_eq!(st.state, StatementState::Closed);
    let d = st.diagnostic.clone().unwrap();
    let rendered = d.render();
    assert!(rendered.as_str().contains("42000"));
    assert!(rendered.as_str().contains("syntax error"));
}

#[test]
fn decode_row_produces_one_value_per_column() {
    let cols = vec![column(1, "n", -5), column(2, "s", 1), column(3, "d", 8)];
    let strategies = strategies_for_columns(&cols);
    assert_eq!(strategies.len(), cols.len());
    let cells = vec![
        CellOutcome::Fetched(CellDatum::Int(5)),
        CellOutcome::Fetched(CellDatum::Str(String::from("t"))),
        CellOutcome::Fetched(CellDatum::Null),
    ];
    match decode_row(&strategies, cells) {
        RowOutcome::Complete(vs) => {
            assert_eq!(vs.len(), cols.len());
            assert_eq!(vs[0], Value::Int64(5));
            assert_eq!(vs[1], Value::Text(String::from("t")));
            assert_eq!(vs[2], Value::Null);
        }
        RowOutcome::Aborted(..) => panic!("row should decode completely"),
    }
}

#[test]
fn decode_row_for_columns_width_matches_descriptor_count() {
    // one value per described column, for any mix of data and NULLs
    let cols = vec![
        column(1, "flag", -7),
        column(2, "label", 1),
        column(3, "seen", 9),
        column(4, "other", 4),
    ];
    let cells = vec![
        CellOutcome::Fetched(CellDatum::Bool(true)),
        CellOutcome::Fetched(CellDatum::Null),
        CellOutcome::Fetched(CellDatum::Null),
        CellOutcome::Fetched(CellDatum::Null),
    ];
    match decode_row_for_columns(&cols, cells) {
        RowOutcome::Complete(vs) => {
            assert_eq!(vs.len(), cols.len());
            assert_eq!(vs[0], Value::Boolean(true));
            assert_eq!(vs[1], Value::Null);
            assert_eq!(vs[2], Value::Null);
            // the unrecognized type code yields the placeholder, not NULL
            assert_eq!(vs[3], Value::Unknown);
        }
        RowOutcome::Aborted(..) => panic!("row should decode completely"),
    }
}

#[test]
fn decode_row_aborts_at_first_driver_error() {
    let strategies = vec![
        DecodeStrategy::Int64,
        DecodeStrategy::Text,
        DecodeStrategy::Int64,
    ];
    let cells = vec![
        CellOutcome::Fetched(CellDatum::Int(9)),
        CellOutcome::DriverError(diag("07006", 0, "restricted data type")),
        CellOutcome::Fetched(CellDatum::Int(1)),
    ];
    match decode_row(&strategies, cells) {
        RowOutcome::Aborted(vs, k, e) => {
            // the value decoded before the failure stays valid
            assert_eq!(vs, vec![Value::Int64(9)]);
            assert_eq!(k, 1);
            assert_eq!(e.records[0].state.as_str(), "07006");
        }
        RowOutcome::Complete(_) => panic!("row should abort"),
    }
}

#[test]
fn query_row_rendering_end_to_end() {
    // a query whose driver reports (Int64, Text, Text) and answers one row
    // 1, NULL, 'x' renders as " | 1 | NULL | x"
    let cols = vec![column(1, "a", -5), column(2, "b", 1), column(3, "c", 1)];
    let strategies = strategies_for_columns(&cols);
    let mut st = Statement::new();
    st.on_exec_outcome(ExecOutcome::ResultSet);
    st.on_columns_described(cols);
    assert_eq!(st.fetch_next(FetchEvent::Row), FetchStep::GotRow);
    let cells = vec![
        CellOutcome::Fetched(CellDatum::Int(1)),
        CellOutcome::Fetched(CellDatum::Null),
        CellOutcome::Fetched(CellDatum::Str(String::from("x"))),
    ];
    let line = match decode_row(&strategies, cells) {
        RowOutcome::Complete(vs) => render_row(&vs),
        RowOutcome::Aborted(..) => panic!("row should decode completely"),
    };
    assert_eq!(line.as_str(), " | 1 | NULL | x");
    assert_eq!(st.fetch_next(FetchEvent::End), FetchStep::EndOfData);
}

#[test]
fn invalid_statement_reports_driver_diagnostics_and_no_rows() {
    // a syntactically invalid statement: the driver rejects execution, no
    // rows are produced, and the report carries SQLSTATE and message
    let mut st = Statement::new();
    st.on_exec_outcome(ExecOutcome::Failed(diag(
        "42000",
        -3500,
        "near \"SELEC\": syntax error",
    )));
    assert_eq!(st.state, StatementState::Closed);
    assert!(!st.described);
    assert_eq!(st.columns.len(), 0);
    let rendered = st.diagnostic.clone().unwrap().render();
    assert!(rendered.as_str().starts_with("Error: "));
    assert!(rendered.as_str().contains("42000"));
    assert!(rendered.as_str().contains("syntax error"));
}
