use vstd::prelude::*;

verus! {

/// The primitive type of one column, as far as query planning needs it.
#[derive(Clone, Copy, PartialEq, Eq, Structural, Debug)]
pub enum DataType {
    Integer,
    Unsigned,
    Text,
    Timestamp,
    Boolean,
}

/// One column definition: its name and its type.
#[derive(Clone, Debug)]
pub struct Field {
    pub name: String,
    pub data_type: DataType,
}

/// A versioned column definition for a stream.  `metadata` carries
/// auxiliary key/value pairs attached by the registry that play no part
/// in query planning.
#[derive(Clone, Debug)]
pub struct Schema {
    pub fields: Vec<Field>,
    pub metadata: Vec<(String, String)>,
}

impl Schema {
    /// A schema with no columns and no metadata, for binding over no data.
    pub fn empty() -> (r: Schema)
        ensures
            r.fields@ == Seq::<Field>::empty(),
            r.metadata@ == Seq::<(String, String)>::empty(),
    {
        Schema { fields: Vec::new(), metadata: Vec::new() }
    }
}

/// Strip the transport metadata from a fetched schema, keeping exactly the
/// column definitions.  The result is structurally comparable and can be
/// reused across every file of the resolved set, even files written under
/// an older but structurally compatible schema version.
pub fn resolve_schema(schema: Schema) -> (r: Schema)
    ensures
        r.fields == schema.fields,
        r.metadata@ == Seq::<(String, String)>::empty(),
{
    Schema { fields: schema.fields, metadata: Vec::new() }
}

} // verus!
