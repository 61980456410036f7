//! What an executor hands back for one statement, and what a describe
//! request is answered with.

use postgres_types::Type;
use vstd::prelude::*;

use crate::error::{ErrorInfo, PgWireResult};
use crate::field::FieldInfo;
use crate::messages::DataRow;
use crate::tag::Tag;

verus! {

/// What one pull of a row source gives: a row, a failure, or nothing when the
/// source has no more.
pub type Pulled = Option<PgWireResult<DataRow>>;

/// One step of a row sequence. While the sequence is open it hands on what
/// was pulled, and stays open only behind a row; once it has ended it yields
/// nothing, whatever was pulled.
pub open spec fn step(open: bool, pulled: Pulled) -> (bool, Pulled) {
    if open {
        (pulled matches Some(Ok(_)), pulled)
    } else {
        (false, None)
    }
}

/// A tabular result: the schema of its rows, unless the client has it
/// already, and the source of the rows. The response owns the source and
/// never pulls it: the consumer does, one item at a time, and hands each item
/// to `yield_item`.
pub struct QueryResponse<S> {
    row_schema: Option<Vec<FieldInfo>>,
    data_rows: S,
    open: bool,
}

impl<S> QueryResponse<S> {
    /// The schema the response was made with.
    pub closed spec fn schema(&self) -> Option<Vec<FieldInfo>> {
        self.row_schema
    }

    /// The row source the response holds.
    pub closed spec fn source(&self) -> S {
        self.data_rows
    }

    /// Whether the row sequence may still yield an item.
    pub closed spec fn is_open(&self) -> bool {
        self.open
    }

    pub fn row_schema(&self) -> (schema: &Option<Vec<FieldInfo>>)
        ensures
            *schema == self.schema(),
    {
        &self.row_schema
    }

    pub fn data_rows(&self) -> (source: &S)
        ensures
            *source == self.source(),
    {
        &self.data_rows
    }

    /// The row source, to pull the next item from.
    pub fn data_rows_mut(&mut self) -> (source: &mut S)
        ensures
            *source == old(self).source(),
            final(self).source() == *final(source),
            final(self).schema() == old(self).schema(),
            final(self).is_open() == old(self).is_open(),
    {
        &mut self.data_rows
    }

    /// Whether the consumer may pull the source for another item.
    pub fn wants_more(&self) -> (open: bool)
        ensures
            open == self.is_open(),
    {
        self.open
    }

    /// Takes what the consumer pulled from the source and gives what the row
    /// sequence yields for it.
    pub fn yield_item(&mut self, pulled: Pulled) -> (item: Pulled)
        ensures
            (final(self).is_open(), item) == step(old(self).is_open(), pulled),
            final(self).schema() == old(self).schema(),
            final(self).source() == old(self).source(),
    {
        if self.open {
            self.open = match &pulled {
                Some(Ok(_)) => true,
                _ => false,
            };
            pulled
        } else {
            None
        }
    }
}

/// A response for a result whose rows come from `row_stream`. Nothing is
/// pulled from the source here.
pub fn query_response<S>(field_defs: Option<Vec<FieldInfo>>, row_stream: S) -> (response:
    QueryResponse<S>)
    ensures
        response.schema() == field_defs,
        response.source() == row_stream,
        response.is_open(),
{
    QueryResponse { row_schema: field_defs, data_rows: row_stream, open: true }
}

/// What a pull gives from a source that still has `source` to give: its
/// first item, or nothing when none is left.
pub open spec fn next_of(source: Seq<PgWireResult<DataRow>>) -> Pulled {
    if source.len() > 0 {
        Some(source[0])
    } else {
        None
    }
}

/// What a source has left to give after one pull.
pub open spec fn rest_of(source: Seq<PgWireResult<DataRow>>) -> Seq<PgWireResult<DataRow>> {
    if source.len() > 0 {
        source.drop_first()
    } else {
        source
    }
}

/// What a consumer receives who asks a row sequence `asks` times for its next
/// item. For each question the consumer pulls the source once, if the
/// sequence wants more, and hands the item to the sequence; if the sequence
/// has ended the consumer receives nothing and leaves the source alone.
pub open spec fn received(open: bool, source: Seq<PgWireResult<DataRow>>, asks: nat) -> Seq<
    Pulled,
>
    decreases asks,
{
    if asks == 0 {
        Seq::empty()
    } else if open {
        let (still_open, item) = step(true, next_of(source));
        seq![item] + received(still_open, rest_of(source), (asks - 1) as nat)
    } else {
        seq![None] + received(false, source, (asks - 1) as nat)
    }
}

/// How often that consumer pulls the source.
pub open spec fn pulls(open: bool, source: Seq<PgWireResult<DataRow>>, asks: nat) -> nat
    decreases asks,
{
    if asks == 0 || !open {
        0
    } else {
        1 + pulls(step(true, next_of(source)).0, rest_of(source), (asks - 1) as nat)
    }
}

/// A sequence that has ended yields nothing and pulls nothing.
pub proof fn lemma_ended_is_silent(source: Seq<PgWireResult<DataRow>>, asks: nat)
    ensures
        received(false, source, asks) == Seq::new(asks, |i: int| None::<PgWireResult<DataRow>>),
        pulls(false, source, asks) == 0,
    decreases asks,
{
    if asks > 0 {
        lemma_ended_is_silent(source, (asks - 1) as nat);
    }
    assert(received(false, source, asks) =~= Seq::new(
        asks,
        |i: int| None::<PgWireResult<DataRow>>,
    ));
}

/// Rows are produced on demand: a consumer who asks `asks` times receives that
/// many items and has the source pulled at most that many times, and what is
/// received depends on no item of the source behind the first `asks`.
pub proof fn lemma_rows_on_demand(open: bool, source: Seq<PgWireResult<DataRow>>, asks: nat)
    ensures
        received(open, source, asks).len() == asks,
        pulls(open, source, asks) <= asks,
        asks <= source.len() ==> received(open, source, asks) == received(
            open,
            source.take(asks as int),
            asks,
        ),
        asks <= source.len() ==> pulls(open, source, asks) == pulls(
            open,
            source.take(asks as int),
            asks,
        ),
    decreases asks,
{
    if asks > 0 {
        let less = (asks - 1) as nat;
        if open {
            let still_open = step(true, next_of(source)).0;
            lemma_rows_on_demand(still_open, rest_of(source), less);
            if asks <= source.len() {
                let head = source.take(asks as int);
                assert(next_of(head) == next_of(source));
                assert(rest_of(head) =~= rest_of(source).take(less as int));
            }
        } else {
            lemma_rows_on_demand(false, source, less);
            if asks <= source.len() {
                lemma_ended_is_silent(source, less);
                lemma_ended_is_silent(source.take(asks as int), less);
            }
        }
    }
}

/// A failure ends the sequence: where the source's item at position `m` is
/// its first failure, a consumer who asks more than `m` times receives the
/// `m` rows before it, then the failure, then nothing, and the source is
/// pulled `m + 1` times, whatever it holds behind the failure.
pub proof fn lemma_failure_is_terminal(source: Seq<PgWireResult<DataRow>>, m: int, asks: nat)
    requires
        0 <= m < source.len(),
        source[m] is Err,
        forall|j: int| 0 <= j < m ==> source[j] is Ok,
        m < asks,
    ensures
        received(true, source, asks) == Seq::new(
            asks,
            |i: int|
                if i <= m {
                    Some(source[i])
                } else {
                    None
                },
        ),
        pulls(true, source, asks) == m + 1,
    decreases m,
{
    let less = (asks - 1) as nat;
    let rest = rest_of(source);
    let expected = Seq::new(
        asks,
        |i: int|
            if i <= m {
                Some(source[i])
            } else {
                None
            },
    );
    if m == 0 {
        lemma_ended_is_silent(rest, less);
        assert(received(true, source, asks) =~= expected);
    } else {
        assert(source[0] is Ok);
        assert(forall|j: int| 0 <= j < m - 1 ==> rest[j] == source[j + 1]);
        lemma_failure_is_terminal(rest, m - 1, less);
        assert(received(true, source, asks) =~= expected);
    }
}

/// The answer to a describe request: the parameter types the server inferred,
/// for a statement, and the columns of the result.
#[derive(Debug)]
pub struct DescribeResponse {
    parameters: Option<Vec<Type>>,
    fields: Vec<FieldInfo>,
}

impl DescribeResponse {
    pub closed spec fn parameter_types(&self) -> Option<Vec<Type>> {
        self.parameters
    }

    pub closed spec fn columns(&self) -> Vec<FieldInfo> {
        self.fields
    }

    pub fn new(parameters: Option<Vec<Type>>, fields: Vec<FieldInfo>) -> (response:
        DescribeResponse)
        ensures
            response.parameter_types() == parameters,
            response.columns() == fields,
    {
        DescribeResponse { parameters, fields }
    }

    pub fn parameters(&self) -> (parameters: &Option<Vec<Type>>)
        ensures
            *parameters == self.parameter_types(),
    {
        &self.parameters
    }

    pub fn fields(&self) -> (fields: &Vec<FieldInfo>)
        ensures
            *fields == self.columns(),
    {
        &self.fields
    }

    /// Gives up the columns, to serve as the schema of the result when the
    /// statement is executed.
    pub fn take_fields(self) -> (fields: Vec<FieldInfo>)
        ensures
            fields == self.columns(),
    {
        self.fields
    }
}

/// The outcome of one statement.
pub enum Response<S> {
    /// The statement returned rows.
    Query(QueryResponse<S>),
    /// The statement was executed and returned no rows.
    Execution(Tag),
    /// The statement failed.
    Error(Box<ErrorInfo>),
}

} // verus!
