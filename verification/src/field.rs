//! Column metadata: the wire format of a column and what a result's schema
//! says of it.

use postgres_types::Type;
use vstd::prelude::*;

use crate::messages::{
    FieldDescription, FieldDescriptionView, RowDescription, FORMAT_CODE_BINARY, FORMAT_CODE_TEXT,
};
use crate::sql_type::type_oid;

verus! {

/// How the values of a column travel on the wire.
#[derive(Debug, PartialEq, Eq, Structural, Clone, Copy)]
pub enum FieldFormat {
    Text,
    Binary,
}

impl FieldFormat {
    /// The code the protocol assigns to a format.
    pub open spec fn code(self) -> i16 {
        match self {
            FieldFormat::Text => 0,
            FieldFormat::Binary => 1,
        }
    }

    /// The format's code as it is sent to the client.
    pub fn value(&self) -> (code: i16)
        ensures
            code == self.code(),
    {
        match self {
            FieldFormat::Text => FORMAT_CODE_TEXT,
            FieldFormat::Binary => FORMAT_CODE_BINARY,
        }
    }
}

/// What is known of one column of a result: its name, the table and column it
/// comes from where it comes from one, its type and its wire format.
#[derive(Debug, PartialEq, Eq)]
pub struct FieldInfo {
    name: String,
    table_id: Option<i32>,
    column_id: Option<i16>,
    datatype: Type,
    format: FieldFormat,
}

/// A `FieldInfo` as plain values.
pub ghost struct FieldInfoView {
    pub name: Seq<char>,
    pub table_id: Option<i32>,
    pub column_id: Option<i16>,
    pub datatype: Type,
    pub format: FieldFormat,
}

impl View for FieldInfo {
    type V = FieldInfoView;

    closed spec fn view(&self) -> FieldInfoView {
        FieldInfoView {
            name: self.name@,
            table_id: self.table_id,
            column_id: self.column_id,
            datatype: self.datatype,
            format: self.format,
        }
    }
}

impl Clone for FieldInfo {
    fn clone(&self) -> (copy: FieldInfo)
        ensures
            copy == *self,
    {
        FieldInfo {
            name: self.name.clone(),
            table_id: self.table_id,
            column_id: self.column_id,
            datatype: self.datatype.clone(),
            format: self.format,
        }
    }
}

impl FieldInfo {
    pub fn new(
        name: String,
        table_id: Option<i32>,
        column_id: Option<i16>,
        datatype: Type,
        format: FieldFormat,
    ) -> (info: FieldInfo)
        ensures
            info@ == (FieldInfoView { name: name@, table_id, column_id, datatype, format }),
    {
        FieldInfo { name, table_id, column_id, datatype, format }
    }

    pub fn name(&self) -> (name: &String)
        ensures
            name@ == self@.name,
    {
        &self.name
    }

    pub fn table_id(&self) -> (id: &Option<i32>)
        ensures
            *id == self@.table_id,
    {
        &self.table_id
    }

    pub fn column_id(&self) -> (id: &Option<i16>)
        ensures
            *id == self@.column_id,
    {
        &self.column_id
    }

    pub fn datatype(&self) -> (ty: &Type)
        ensures
            *ty == self@.datatype,
    {
        &self.datatype
    }

    pub fn format(&self) -> (format: &FieldFormat)
        ensures
            *format == self@.format,
    {
        &self.format
    }
}

/// The row description entry of a column. A column that comes from no table
/// column carries 0 for both identifiers; type size and type modifier are not
/// computed and are sent as 0.
pub open spec fn description_of(info: FieldInfoView) -> FieldDescriptionView {
    FieldDescriptionView {
        name: info.name,
        table_id: match info.table_id {
            Some(id) => id,
            None => 0,
        },
        column_id: match info.column_id {
            Some(id) => id,
            None => 0,
        },
        type_id: type_oid(info.datatype),
        type_size: 0,
        type_modifier: 0,
        format_code: info.format.code(),
    }
}

impl From<FieldInfo> for FieldDescription {
    fn from(fi: FieldInfo) -> (fd: FieldDescription)
        ensures
            fd@ == description_of(fi@),
    {
        let table_id = match fi.table_id {
            Some(id) => id,
            None => 0,
        };
        let column_id = match fi.column_id {
            Some(id) => id,
            None => 0,
        };
        let type_id = fi.datatype.oid();
        let format_code = fi.format.value();
        FieldDescription::new(fi.name, table_id, column_id, type_id, 0, 0, format_code)
    }
}

/// Two strings with the same text need not be one value to the verifier, so
/// the conversion is stated over the entry's plain values, in the `ensures`
/// of `from`, and not as an equation between entries.
impl vstd::std_specs::convert::FromSpecImpl<FieldInfo> for FieldDescription {
    open spec fn obeys_from_spec() -> bool {
        false
    }

    open spec fn from_spec(fi: FieldInfo) -> FieldDescription {
        choose|fd: FieldDescription| fd@ == description_of(fi@)
    }
}

/// The row description of a schema: the entry of each column, in column
/// order.
pub open spec fn row_description_of(fields: Seq<FieldInfo>) -> Seq<FieldDescriptionView> {
    Seq::new(fields.len(), |i: int| description_of(fields[i]@))
}

/// Converts a result's schema into the payload of its row description
/// message.
pub fn into_row_description(fields: Vec<FieldInfo>) -> (rd: RowDescription)
    ensures
        rd@ == row_description_of(fields@),
{
    let ghost schema = fields@;
    let mut entries: Vec<FieldDescription> = Vec::with_capacity(fields.len());
    for fi in it: fields
        invariant
            it.seq() == schema,
            entries@.len() == it.index(),
            forall|j: int| 0 <= j < entries@.len() ==> entries@[j]@ == description_of(schema[j]@),
    {
        entries.push(FieldDescription::from(fi));
    }
    let rd = RowDescription::new(entries);
    assert(rd@ =~= row_description_of(schema));
    rd
}

} // verus!
