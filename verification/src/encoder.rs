//! Building one data row, field by field.

use bytes::{Bytes, BytesMut};
use postgres_types::Type;
use vstd::prelude::*;

use crate::buffer::written;
use crate::error::{EncodeError, PgWireError, PgWireResult};
use crate::messages::{DataRow, FieldView, FORMAT_CODE_TEXT};

verus! {

/// Whether a value is SQL NULL.
#[derive(Debug, PartialEq, Eq, Structural, Clone, Copy)]
pub enum IsNull {
    Yes,
    No,
}

/// What writing one value reports: whether the value is NULL, or why it could
/// not be written.
pub type Written = Result<IsNull, EncodeError>;

/// A value that can write itself in the text format of a type. The bytes go
/// behind those that `out` holds; a value that reports NULL writes none.
pub trait ToSqlText {
    fn to_sql_text(&self, ty: &Type, out: &mut BytesMut) -> Written;
}

/// A value that can write itself in the binary format of a type. The bytes go
/// behind those that `out` holds; a value that reports NULL writes none.
pub trait ToSqlBinary {
    fn to_sql_binary(&self, ty: &Type, out: &mut BytesMut) -> Written;
}

/// The field that a value contributes to its row: none for NULL, whatever the
/// scratch buffer holds, else the bytes of the scratch buffer.
pub open spec fn encoded_field(is_null: IsNull, scratch: Seq<u8>) -> FieldView {
    match is_null {
        IsNull::Yes => None,
        IsNull::No => Some(scratch),
    }
}

/// The row after one value was written into a scratch buffer that now holds
/// `scratch`: one field longer where the value was written, unchanged where
/// it could not be.
pub open spec fn row_after(row: Seq<FieldView>, scratch: Seq<u8>, outcome: Written) -> Seq<
    FieldView,
> {
    match outcome {
        Ok(is_null) => row.push(encoded_field(is_null, scratch)),
        Err(_) => row,
    }
}

/// What the encoder answers to one written value.
pub open spec fn answer_to(outcome: Written) -> PgWireResult<()> {
    match outcome {
        Ok(_) => Ok(()),
        Err(e) => Err(PgWireError::FieldEncoding(e)),
    }
}

/// The row that a sequence of written values builds from nothing: `writes`
/// gives, for each value in turn, whether it reported NULL and what the
/// scratch buffer held when it had been written.
pub open spec fn row_of(writes: Seq<(IsNull, Seq<u8>)>) -> Seq<FieldView>
    decreases writes.len(),
{
    if writes.len() == 0 {
        Seq::empty()
    } else {
        row_after(row_of(writes.drop_last()), writes.last().1, Ok(writes.last().0))
    }
}

/// A row has one field for each value that was written, in the order of
/// writing, and each field is what its own value contributed.
pub proof fn lemma_fields_in_encode_order(writes: Seq<(IsNull, Seq<u8>)>)
    ensures
        row_of(writes).len() == writes.len(),
        forall|i: int|
            0 <= i < writes.len() ==> #[trigger] row_of(writes)[i] == encoded_field(
                writes[i].0,
                writes[i].1,
            ),
    decreases writes.len(),
{
    if writes.len() > 0 {
        lemma_fields_in_encode_order(writes.drop_last());
    }
}

/// A value that reports NULL gives an absent field, whatever the scratch
/// buffer holds.
pub proof fn lemma_null_is_absent(row: Seq<FieldView>, scratch: Seq<u8>)
    ensures
        row_after(row, scratch, Ok(IsNull::Yes)) == row.push(None),
{
}

/// No field holds bytes of another: two rows of the same length agree in
/// each field for which the same was written, whatever was written for the
/// others.
pub proof fn lemma_fields_are_isolated(
    first: Seq<(IsNull, Seq<u8>)>,
    second: Seq<(IsNull, Seq<u8>)>,
    i: int,
)
    requires
        first.len() == second.len(),
        0 <= i < first.len(),
        first[i] == second[i],
    ensures
        row_of(first)[i] == row_of(second)[i],
{
    lemma_fields_in_encode_order(first);
    lemma_fields_in_encode_order(second);
}

/// Builds one data row. Values are written one at a time into a scratch
/// buffer that the encoder keeps for the whole row; between two values the
/// scratch buffer is empty.
pub struct DataRowEncoder {
    buffer: DataRow,
    field_buffer: BytesMut,
}

impl View for DataRowEncoder {
    type V = Seq<FieldView>;

    /// The fields encoded so far, in the order they were encoded.
    closed spec fn view(&self) -> Seq<FieldView> {
        self.buffer@
    }
}

impl DataRowEncoder {
    /// The bytes that wait in the scratch buffer.
    pub closed spec fn scratch(&self) -> Seq<u8> {
        written(self.field_buffer)
    }

    /// An encoder for a row of `ncols` columns, with no field encoded yet.
    pub fn new(ncols: usize) -> (encoder: DataRowEncoder)
        ensures
            encoder@ == Seq::<FieldView>::empty(),
            encoder.scratch() == Seq::<u8>::empty(),
    {
        let fields: Vec<Option<Bytes>> = Vec::with_capacity(ncols);
        let buffer = DataRow::new(fields);
        assert(buffer@ =~= Seq::<FieldView>::empty());
        DataRowEncoder { buffer, field_buffer: BytesMut::with_capacity(8) }
    }

    /// Encodes `value` as the next field of the row: in text format where
    /// `format` is the text format's code, in binary format otherwise.
    ///
    /// Whether the value can be written, and which bytes it writes, is the
    /// value's own affair; `complete_field` says what becomes of the row for
    /// each answer.
    pub fn encode_field<T: ToSqlBinary + ToSqlText>(
        &mut self,
        value: &T,
        data_type: &Type,
        format: i16,
    ) -> (r: PgWireResult<()>)
        ensures
            final(self).scratch() == Seq::<u8>::empty(),
            exists|bytes: Seq<u8>, outcome: Written|
                {
                    &&& r == answer_to(outcome)
                    &&& final(self)@ == #[trigger] row_after(old(self)@, bytes, outcome)
                },
    {
        let outcome = if format == FORMAT_CODE_TEXT {
            value.to_sql_text(data_type, &mut self.field_buffer)
        } else {
            value.to_sql_binary(data_type, &mut self.field_buffer)
        };
        let ghost bytes = self.scratch();
        let r = self.complete_field(outcome);
        assert(self@ == row_after(old(self)@, bytes, outcome));
        r
    }

    /// Takes what was written into the scratch buffer as the next field of
    /// the row. A value that reported NULL gives an absent field, a value
    /// that was written gives a field with the scratch buffer's bytes, and a
    /// value that could not be written gives no field and the failure. The
    /// scratch buffer is empty afterwards in each case.
    pub fn complete_field(&mut self, outcome: Written) -> (r: PgWireResult<()>)
        ensures
            r == answer_to(outcome),
            final(self)@ == row_after(old(self)@, old(self).scratch(), outcome),
            final(self).scratch() == Seq::<u8>::empty(),
    {
        match outcome {
            Ok(is_null) => {
                match is_null {
                    IsNull::No => {
                        let buf = self.field_buffer.split().freeze();
                        self.buffer.push_field(Some(buf));
                    },
                    IsNull::Yes => {
                        self.buffer.push_field(None);
                    },
                }
                self.field_buffer.clear();
                Ok(())
            },
            Err(e) => {
                self.field_buffer.clear();
                Err(PgWireError::from(e))
            },
        }
    }

    /// The finished row: the fields encoded so far, in the order they were
    /// encoded.
    pub fn finish(self) -> (r: PgWireResult<DataRow>)
        ensures
            r matches Ok(row) && row@ == self@,
    {
        Ok(self.buffer)
    }
}

} // verus!
