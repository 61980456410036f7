//! Payloads of the messages a response is rendered to.

use bytes::Bytes;
use vstd::prelude::*;

use crate::buffer::frozen;

verus! {

/// Format code of a column whose values travel as text.
pub const FORMAT_CODE_TEXT: i16 = 0;

/// Format code of a column whose values travel in binary form.
pub const FORMAT_CODE_BINARY: i16 = 1;

/// The payload of a completion message: the tag's text.
#[derive(Debug, Clone, PartialEq, Eq)]
pub struct CommandComplete {
    tag: String,
}

impl View for CommandComplete {
    type V = Seq<char>;

    closed spec fn view(&self) -> Seq<char> {
        self.tag@
    }
}

impl CommandComplete {
    pub fn new(tag: String) -> (cc: CommandComplete)
        ensures
            cc@ == tag@,
    {
        CommandComplete { tag }
    }

    pub fn tag(&self) -> (tag: &String)
        ensures
            tag@ == self@,
    {
        &self.tag
    }
}

/// One entry of a row description: what the client is told of one column.
#[derive(Debug, Clone, PartialEq, Eq)]
pub struct FieldDescription {
    name: String,
    table_id: i32,
    column_id: i16,
    type_id: u32,
    type_size: i16,
    type_modifier: i32,
    format_code: i16,
}

/// A `FieldDescription` as plain values.
pub ghost struct FieldDescriptionView {
    pub name: Seq<char>,
    pub table_id: i32,
    pub column_id: i16,
    pub type_id: u32,
    pub type_size: i16,
    pub type_modifier: i32,
    pub format_code: i16,
}

impl View for FieldDescription {
    type V = FieldDescriptionView;

    closed spec fn view(&self) -> FieldDescriptionView {
        FieldDescriptionView {
            name: self.name@,
            table_id: self.table_id,
            column_id: self.column_id,
            type_id: self.type_id,
            type_size: self.type_size,
            type_modifier: self.type_modifier,
            format_code: self.format_code,
        }
    }
}

impl FieldDescription {
    pub fn new(
        name: String,
        table_id: i32,
        column_id: i16,
        type_id: u32,
        type_size: i16,
        type_modifier: i32,
        format_code: i16,
    ) -> (fd: FieldDescription)
        ensures
            fd@ == (FieldDescriptionView {
                name: name@,
                table_id,
                column_id,
                type_id,
                type_size,
                type_modifier,
                format_code,
            }),
    {
        FieldDescription { name, table_id, column_id, type_id, type_size, type_modifier, format_code }
    }

    pub fn name(&self) -> (name: &String)
        ensures
            name@ == self@.name,
    {
        &self.name
    }

    pub fn table_id(&self) -> (id: i32)
        ensures
            id == self@.table_id,
    {
        self.table_id
    }

    pub fn column_id(&self) -> (id: i16)
        ensures
            id == self@.column_id,
    {
        self.column_id
    }

    pub fn type_id(&self) -> (oid: u32)
        ensures
            oid == self@.type_id,
    {
        self.type_id
    }

    pub fn type_size(&self) -> (size: i16)
        ensures
            size == self@.type_size,
    {
        self.type_size
    }

    pub fn type_modifier(&self) -> (modifier: i32)
        ensures
            modifier == self@.type_modifier,
    {
        self.type_modifier
    }

    pub fn format_code(&self) -> (code: i16)
        ensures
            code == self@.format_code,
    {
        self.format_code
    }
}

/// The payload of a row description message: one entry per column, in column
/// order.
#[derive(Debug, Clone, PartialEq, Eq)]
pub struct RowDescription {
    fields: Vec<FieldDescription>,
}

impl View for RowDescription {
    type V = Seq<FieldDescriptionView>;

    closed spec fn view(&self) -> Seq<FieldDescriptionView> {
        Seq::new(self.fields@.len(), |i: int| self.fields@[i]@)
    }
}

impl RowDescription {
    pub fn new(fields: Vec<FieldDescription>) -> (rd: RowDescription)
        ensures
            rd@ == Seq::new(fields@.len(), |i: int| fields@[i]@),
    {
        RowDescription { fields }
    }

    pub fn fields(&self) -> (fields: &Vec<FieldDescription>)
        ensures
            self@ == Seq::new(fields@.len(), |i: int| fields@[i]@),
    {
        &self.fields
    }
}

/// One field of a row as plain values: absent for NULL, else its bytes.
pub type FieldView = Option<Seq<u8>>;

/// What a field of a row holds, as plain values.
pub open spec fn field_view(field: Option<Bytes>) -> FieldView {
    match field {
        Some(bytes) => Some(frozen(bytes)),
        None => None,
    }
}

/// The fields a vector of row fields holds, as plain values and in order.
pub open spec fn fields_view(fields: Seq<Option<Bytes>>) -> Seq<FieldView> {
    Seq::new(fields.len(), |i: int| field_view(fields[i]))
}

/// The payload of a data row message: one field per column, in column order.
#[derive(Debug, Clone, PartialEq, Eq)]
pub struct DataRow {
    fields: Vec<Option<Bytes>>,
}

impl View for DataRow {
    type V = Seq<FieldView>;

    closed spec fn view(&self) -> Seq<FieldView> {
        fields_view(self.fields@)
    }
}

impl DataRow {
    pub fn new(fields: Vec<Option<Bytes>>) -> (row: DataRow)
        ensures
            row@ == fields_view(fields@),
    {
        DataRow { fields }
    }

    pub fn fields(&self) -> (fields: &Vec<Option<Bytes>>)
        ensures
            fields_view(fields@) == self@,
    {
        &self.fields
    }

    /// Appends one field behind those the row holds.
    pub fn push_field(&mut self, field: Option<Bytes>)
        ensures
            final(self)@ == old(self)@.push(field_view(field)),
    {
        self.fields.push(field);
        assert(fields_view(self.fields@) =~= fields_view(old(self).fields@).push(field_view(field)));
    }
}

} // verus!
