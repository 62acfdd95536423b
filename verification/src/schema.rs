//! Schemas: the numbered format definitions that entry payloads refer to.

use vstd::prelude::*;

verus! {

/// Bytes reserved for the cell of a schema.
pub const SCHEMA_SPACE: usize = 1024;

/// Bytes that a stored schema takes besides its definition: a tag of 8, the
/// timestamp, the version and the length prefix.
pub const SCHEMA_FIXED_LEN: usize = 21;

/// One schema of a registry.
#[derive(Debug)]
pub struct SchemaData {
    /// When the schema was added, in seconds.
    pub created_at: i64,
    /// The number of the schema: the first one added is 1.
    pub version: u8,
    /// The definition.
    pub data: Vec<u8>,
}

/// A schema as a mathematical value.
pub struct SchemaDataView {
    pub created_at: i64,
    pub version: u8,
    pub data: Seq<u8>,
}

impl View for SchemaData {
    type V = SchemaDataView;

    open spec fn view(&self) -> SchemaDataView {
        SchemaDataView { created_at: self.created_at, version: self.version, data: self.data@ }
    }
}

impl SchemaDataView {
    /// How many bytes the stored schema takes.
    pub open spec fn encoded_len(self) -> nat {
        SCHEMA_FIXED_LEN as nat + self.data.len()
    }

    /// Whether the schema fits into its cell.
    pub open spec fn fits(self) -> bool {
        self.encoded_len() <= SCHEMA_SPACE
    }
}

impl SchemaData {
    /// The schema numbered `version`, added at `now`.
    pub fn new(version: u8, data: Vec<u8>, now: i64) -> (schema: SchemaData)
        ensures
            schema@ == (SchemaDataView { created_at: now, version, data: data@ }),
    {
        SchemaData { created_at: now, version, data }
    }

    /// Whether the schema fits into its cell.
    pub fn fits(&self) -> (r: bool)
        ensures
            r == self@.fits(),
    {
        self.data.len() <= SCHEMA_SPACE - SCHEMA_FIXED_LEN
    }
}

} // verus!
