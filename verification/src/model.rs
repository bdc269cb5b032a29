//! The snapshot-side data model: the table schema with its column-type
//! resolver, the raw add-file entries, and the table-level descriptor.

use vstd::prelude::*;

verus! {

/// One field of a table schema: its name and its declared type, spelled the
/// way the transaction log spells it (for instance "integer" or "string").
pub struct SchemaField {
    pub name: String,
    pub declared_type: String,
}

/// The structured form of a table schema: the fields the snapshot declares.
pub struct Schema {
    pub fields: Vec<SchemaField>,
}

/// The comparison-capable types the predicate evaluator reasons about.
/// `Other` covers every declared type the evaluator does not reason about.
#[derive(Clone, Copy, Debug, PartialEq, Eq, Structural)]
pub enum ColumnType {
    Boolean,
    Int,
    Long,
    Text,
    Date,
    Other,
}

/// The comparison-capable type a declared type name maps to.
pub open spec fn spec_column_type_of(declared_type: Seq<char>) -> ColumnType {
    if declared_type == "boolean"@ {
        ColumnType::Boolean
    } else if declared_type == "integer"@ {
        ColumnType::Int
    } else if declared_type == "long"@ {
        ColumnType::Long
    } else if declared_type == "string"@ {
        ColumnType::Text
    } else if declared_type == "date"@ {
        ColumnType::Date
    } else {
        ColumnType::Other
    }
}

/// The first schema field carrying the given name, if any.
pub open spec fn spec_find_field(fields: Seq<SchemaField>, name: Seq<char>) -> Option<SchemaField>
    decreases fields.len(),
{
    if fields.len() == 0 {
        None
    } else if fields[0].name@ == name {
        Some(fields[0])
    } else {
        spec_find_field(fields.drop_first(), name)
    }
}

/// What the column-type resolver answers: `None` when the schema has no field
/// of that name, otherwise the field's comparison-capable type.
pub open spec fn spec_resolve_column_type(schema: Schema, name: Seq<char>) -> Option<ColumnType> {
    match spec_find_field(schema.fields@, name) {
        Some(f) => Some(spec_column_type_of(f.declared_type@)),
        None => None,
    }
}

pub fn column_type_of(declared_type: &String) -> (r: ColumnType)
    ensures
        r == spec_column_type_of(declared_type@),
{
    if *declared_type == "boolean".to_owned() {
        ColumnType::Boolean
    } else if *declared_type == "integer".to_owned() {
        ColumnType::Int
    } else if *declared_type == "long".to_owned() {
        ColumnType::Long
    } else if *declared_type == "string".to_owned() {
        ColumnType::Text
    } else if *declared_type == "date".to_owned() {
        ColumnType::Date
    } else {
        ColumnType::Other
    }
}

impl Schema {
    /// Looks the field up by name, scanning the declared fields in order.
    pub fn get_field_with_name<'a>(&'a self, name: &String) -> (r: Option<&'a SchemaField>)
        ensures
            match r {
                Some(f) => spec_find_field(self.fields@, name@) == Some(*f),
                None => spec_find_field(self.fields@, name@) is None,
            },
    {
        let n = self.fields.len();
        let mut i: usize = 0;
        proof {
            assert(self.fields@.skip(0) =~= self.fields@);
        }
        while i < n
            invariant
                i <= n,
                n == self.fields@.len(),
                spec_find_field(self.fields@, name@) == spec_find_field(
                    self.fields@.skip(i as int),
                    name@,
                ),
            decreases n - i,
        {
            let field = &self.fields[i];
            proof {
                assert(self.fields@.skip(i as int)[0] == self.fields@[i as int]);
            }
            if field.name == *name {
                return Some(field);
            }
            proof {
                assert(self.fields@.skip(i as int).drop_first() =~= self.fields@.skip(
                    i as int + 1,
                ));
            }
            i += 1;
        }
        proof {
            assert(self.fields@.skip(n as int) =~= Seq::<SchemaField>::empty());
        }
        None
    }
}

/// Resolves a column to its comparison-capable type: `None` when the schema
/// has no field of that name, `Other` when the declared type is unsupported.
pub fn resolve_column_type(schema: &Schema, name: &String) -> (r: Option<ColumnType>)
    ensures
        r == spec_resolve_column_type(*schema, name@),
{
    match schema.get_field_with_name(name) {
        Some(field) => Some(column_type_of(&field.declared_type)),
        None => None,
    }
}

/// One raw add-file entry of a snapshot, as the transaction-log reader hands
/// it over: its path, partition values (absent values kept as `None`), byte
/// size, raw statistics payload, and modification time.
pub struct FileEntry {
    pub path: String,
    pub partition_values: Vec<(String, Option<String>)>,
    pub size: i64,
    pub stats: Option<String>,
    pub modification_time: Option<i64>,
}

/// The table-level descriptor of a snapshot. The schema travels separately in
/// structured form (for filtering); here it appears only as the opaque
/// canonical string the protocol exposes. Version, size and file count are
/// populated only when known for the snapshot being served.
pub struct TableMetadata {
    pub id: String,
    pub name: Option<String>,
    pub description: Option<String>,
    pub provider: String,
    pub schema_string: String,
    pub partition_columns: Vec<String>,
    pub configuration: Vec<(String, Option<String>)>,
    pub version: Option<i64>,
    pub size: Option<i64>,
    pub num_files: Option<i64>,
}

} // verus!
