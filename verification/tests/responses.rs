use std::cell::Cell;
use std::rc::Rc;

use futures::executor::block_on;
use futures::stream::{self, BoxStream, StreamExt};
use pgwire_results::encoder::{DataRowEncoder, IsNull, ToSqlBinary, ToSqlText, Written};
use pgwire_results::error::{EncodeError, ErrorInfo, PgWireError, PgWireResult};
use pgwire_results::field::{into_row_description, FieldFormat, FieldInfo};
use pgwire_results::messages::{DataRow, FORMAT_CODE_BINARY, FORMAT_CODE_TEXT};
use pgwire_results::response::{query_response, DescribeResponse, QueryResponse, Response};
use pgwire_results::tag::Tag;
use postgres_types::{ToSql, Type};

struct Id(i32);

impl ToSqlBinary for Id {
    fn to_sql_binary(&self, ty: &Type, out: &mut bytes::BytesMut) -> Written {
        match self.0.to_sql(ty, out) {
            Ok(postgres_types::IsNull::Yes) => Ok(IsNull::Yes),
            Ok(postgres_types::IsNull::No) => Ok(IsNull::No),
            Err(e) => Err(EncodeError { reason: e.to_string() }),
        }
    }
}

impl ToSqlText for Id {
    fn to_sql_text(&self, _ty: &Type, out: &mut bytes::BytesMut) -> Written {
        out.extend_from_slice(self.0.to_string().as_bytes());
        Ok(IsNull::No)
    }
}

struct Name(&'static str);

impl ToSqlBinary for Name {
    fn to_sql_binary(&self, ty: &Type, out: &mut bytes::BytesMut) -> Written {
        match self.0.to_sql(ty, out) {
            Ok(postgres_types::IsNull::Yes) => Ok(IsNull::Yes),
            Ok(postgres_types::IsNull::No) => Ok(IsNull::No),
            Err(e) => Err(EncodeError { reason: e.to_string() }),
        }
    }
}

impl ToSqlText for Name {
    fn to_sql_text(&self, _ty: &Type, out: &mut bytes::BytesMut) -> Written {
        out.extend_from_slice(self.0.as_bytes());
        Ok(IsNull::No)
    }
}

fn row(id: i32, name: &'static str) -> PgWireResult<DataRow> {
    let mut encoder = DataRowEncoder::new(2);
    encoder.encode_field(&Id(id), &Type::INT4, FORMAT_CODE_BINARY)?;
    encoder.encode_field(&Name(name), &Type::TEXT, FORMAT_CODE_TEXT)?;
    encoder.finish()
}

fn failure(message: &str) -> PgWireError {
    PgWireError::RowSource(Box::new(ErrorInfo::new(
        "ERROR".to_owned(),
        "58030".to_owned(),
        message.to_owned(),
    )))
}

fn schema() -> Vec<FieldInfo> {
    vec![
        FieldInfo::new("id".to_owned(), None, None, Type::INT4, FieldFormat::Binary),
        FieldInfo::new("name".to_owned(), None, None, Type::TEXT, FieldFormat::Text),
    ]
}

/// A row source that counts how often it is pulled.
fn counted<'a>(
    items: Vec<PgWireResult<DataRow>>,
    pulls: Rc<Cell<usize>>,
) -> stream::LocalBoxStream<'a, PgWireResult<DataRow>> {
    let mut items = items.into_iter();
    stream::poll_fn(move |_| {
        pulls.set(pulls.get() + 1);
        std::task::Poll::Ready(items.next())
    })
    .boxed_local()
}

/// Asks the row sequence for its next item as a consumer does: the source is
/// pulled only where the sequence wants more.
fn next_item<S>(response: &mut QueryResponse<S>) -> Option<PgWireResult<DataRow>>
where
    S: futures::Stream<Item = PgWireResult<DataRow>> + Unpin,
{
    if response.wants_more() {
        let pulled = block_on(response.data_rows_mut().next());
        response.yield_item(pulled)
    } else {
        None
    }
}

#[test]
fn construction_pulls_nothing() {
    let pulls = Rc::new(Cell::new(0));
    let response = query_response(
        Some(schema()),
        counted(vec![row(1, "a"), row(2, "b")], pulls.clone()),
    );
    assert_eq!(pulls.get(), 0);
    assert!(response.wants_more());
    assert_eq!(response.row_schema().as_ref().unwrap().len(), 2);
    assert_eq!(pulls.get(), 0);
}

#[test]
fn consuming_k_items_pulls_k_times() {
    let pulls = Rc::new(Cell::new(0));
    let items = vec![row(1, "a"), row(2, "b"), row(3, "c"), row(4, "d")];
    let mut response = query_response(None, counted(items, pulls.clone()));
    for k in 1..=3usize {
        let item = next_item(&mut response);
        assert_eq!(item, Some(row(k as i32, ["a", "b", "c"][k - 1])));
        assert_eq!(pulls.get(), k);
    }
    drop(response);
    assert_eq!(pulls.get(), 3);
}

#[test]
fn rows_come_in_production_order_until_exhaustion() {
    let pulls = Rc::new(Cell::new(0));
    let items = vec![row(3, "c"), row(1, "a"), row(2, "b")];
    let mut response = query_response(Some(schema()), counted(items, pulls.clone()));
    assert_eq!(next_item(&mut response), Some(row(3, "c")));
    assert_eq!(next_item(&mut response), Some(row(1, "a")));
    assert_eq!(next_item(&mut response), Some(row(2, "b")));
    assert!(response.wants_more());
    assert_eq!(next_item(&mut response), None);
    assert_eq!(pulls.get(), 4);
    assert!(!response.wants_more());
    assert_eq!(next_item(&mut response), None);
    assert_eq!(pulls.get(), 4);
}

#[test]
fn failure_is_the_last_item() {
    let pulls = Rc::new(Cell::new(0));
    let items = vec![
        row(1, "a"),
        row(2, "b"),
        Err(failure("read failed")),
        row(4, "d"),
        Err(failure("again")),
    ];
    let mut response = query_response(Some(schema()), counted(items, pulls.clone()));
    assert_eq!(next_item(&mut response), Some(row(1, "a")));
    assert_eq!(next_item(&mut response), Some(row(2, "b")));
    assert_eq!(next_item(&mut response), Some(Err(failure("read failed"))));
    assert!(!response.wants_more());
    assert_eq!(next_item(&mut response), None);
    assert_eq!(next_item(&mut response), None);
    assert_eq!(pulls.get(), 3);
}

#[test]
fn failure_at_the_first_position_yields_no_row() {
    let pulls = Rc::new(Cell::new(0));
    let items = vec![Err(failure("no such table")), row(1, "a")];
    let mut response = query_response(None, counted(items, pulls.clone()));
    assert_eq!(next_item(&mut response), Some(Err(failure("no such table"))));
    assert_eq!(next_item(&mut response), None);
    assert_eq!(pulls.get(), 1);
}

#[test]
fn ended_sequence_yields_nothing_whatever_is_handed_in() {
    let mut response = query_response(None, stream::empty::<PgWireResult<DataRow>>());
    assert_eq!(response.yield_item(None), None);
    assert!(!response.wants_more());
    assert_eq!(response.yield_item(Some(row(1, "a"))), None);
    assert_eq!(response.yield_item(Some(Err(failure("late")))), None);
    assert!(!response.wants_more());

    let mut response = query_response(None, stream::empty::<PgWireResult<DataRow>>());
    assert_eq!(response.yield_item(Some(row(1, "a"))), Some(row(1, "a")));
    assert!(response.wants_more());
    assert_eq!(response.yield_item(Some(Err(failure("broken")))), Some(Err(failure("broken"))));
    assert!(!response.wants_more());
    assert_eq!(response.yield_item(Some(row(2, "b"))), None);
}

#[test]
fn field_encoding_failure_becomes_the_terminal_item() {
    struct TooWide;
    impl ToSqlBinary for TooWide {
        fn to_sql_binary(&self, _ty: &Type, _out: &mut bytes::BytesMut) -> Written {
            Err(EncodeError { reason: "value out of range for int4".to_owned() })
        }
    }
    impl ToSqlText for TooWide {
        fn to_sql_text(&self, _ty: &Type, _out: &mut bytes::BytesMut) -> Written {
            Err(EncodeError { reason: "value out of range for int4".to_owned() })
        }
    }
    fn bad_row() -> PgWireResult<DataRow> {
        let mut encoder = DataRowEncoder::new(1);
        encoder.encode_field(&TooWide, &Type::INT4, FORMAT_CODE_BINARY)?;
        encoder.finish()
    }
    let source: BoxStream<'static, PgWireResult<DataRow>> =
        stream::iter(vec![row(1, "a"), bad_row(), row(3, "c")]).boxed();
    let mut response = query_response(None, source);
    assert_eq!(next_item(&mut response), Some(row(1, "a")));
    assert_eq!(
        next_item(&mut response),
        Some(Err(PgWireError::FieldEncoding(EncodeError {
            reason: "value out of range for int4".to_owned()
        })))
    );
    assert_eq!(next_item(&mut response), None);
}

#[test]
fn query_response_end_to_end() {
    let source: BoxStream<'static, PgWireResult<DataRow>> =
        stream::iter(vec![row(1, "a"), row(2, "b")]).boxed();
    let response = Response::Query(query_response(Some(schema()), source));

    let mut descriptions = Vec::new();
    let mut rows = Vec::new();
    let mut completions: Vec<String> = Vec::new();
    let mut errors: Vec<ErrorInfo> = Vec::new();
    match response {
        Response::Query(mut results) => {
            if let Some(fields) = results.row_schema() {
                descriptions.push(into_row_description(fields.clone()));
            }
            while let Some(item) = next_item(&mut results) {
                rows.push(item.unwrap());
            }
        }
        Response::Execution(tag) => completions.push(tag.text()),
        Response::Error(info) => errors.push(*info),
    }

    assert_eq!(descriptions.len(), 1);
    let entries = descriptions[0].fields();
    assert_eq!(entries.len(), 2);
    assert_eq!(entries[0].name(), "id");
    assert_eq!(entries[0].type_id(), 23);
    assert_eq!(entries[0].format_code(), 1);
    assert_eq!(entries[1].name(), "name");
    assert_eq!(entries[1].type_id(), 25);
    assert_eq!(entries[1].format_code(), 0);

    assert_eq!(rows.len(), 2);
    assert_eq!(rows[0].fields()[0].as_ref().unwrap().to_vec(), vec![0, 0, 0, 1]);
    assert_eq!(rows[0].fields()[1].as_ref().unwrap().to_vec(), b"a".to_vec());
    assert_eq!(rows[1].fields()[0].as_ref().unwrap().to_vec(), vec![0, 0, 0, 2]);
    assert_eq!(rows[1].fields()[1].as_ref().unwrap().to_vec(), b"b".to_vec());

    assert!(completions.is_empty());
    assert!(errors.is_empty());
}

#[test]
fn execution_response_carries_its_tag() {
    let response: Response<()> = Response::Execution(Tag::new_for_execution("UPDATE", Some(3)));
    match response {
        Response::Execution(tag) => assert_eq!(tag.text(), "UPDATE 3"),
        Response::Query(_) => panic!("an execution is no query"),
        Response::Error(_) => panic!("an execution is no failure"),
    }
}

#[test]
fn error_response_carries_the_failure() {
    let info = ErrorInfo::new("ERROR".to_owned(), "42P01".to_owned(), "no such table".to_owned());
    let response: Response<()> = Response::Error(Box::new(info));
    match response {
        Response::Error(info) => {
            assert_eq!(info.severity(), "ERROR");
            assert_eq!(info.code(), "42P01");
            assert_eq!(info.message(), "no such table");
        }
        Response::Query(_) => panic!("a failure is no query"),
        Response::Execution(_) => panic!("a failure is no execution"),
    }
}

#[test]
fn query_response_keeps_schema_and_source() {
    let response = query_response(Some(schema()), vec![1u8, 2, 3]);
    assert_eq!(*response.row_schema(), Some(schema()));
    assert_eq!(*response.data_rows(), vec![1u8, 2, 3]);
    let response = query_response(None, 7u32);
    assert_eq!(*response.row_schema(), None);
    assert_eq!(*response.data_rows(), 7);
}

#[test]
fn describe_statement_has_parameters_and_fields() {
    let describe = DescribeResponse::new(Some(vec![Type::INT4, Type::TEXT]), schema());
    assert_eq!(*describe.parameters(), Some(vec![Type::INT4, Type::TEXT]));
    assert_eq!(*describe.fields(), schema());
}

#[test]
fn describe_portal_has_fields_only() {
    let describe = DescribeResponse::new(None, schema());
    assert_eq!(*describe.parameters(), None);
    assert_eq!(describe.fields().len(), 2);
    let empty = DescribeResponse::new(None, Vec::new());
    assert!(empty.fields().is_empty());
}

#[test]
fn described_fields_serve_as_the_schema_of_the_result() {
    let describe = DescribeResponse::new(None, schema());
    let fields = describe.take_fields();
    assert_eq!(fields, schema());
    let response = query_response(Some(fields), ());
    assert_eq!(*response.row_schema(), Some(schema()));
}
