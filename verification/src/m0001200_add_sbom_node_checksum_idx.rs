//! The migration that indexes SBOM node checksums by value and type.

use vstd::prelude::*;
use crate::schema_change::SchemaChange;

verus! {

/// Indexes the checksums of SBOM nodes by value and type.
pub struct Migration;

/// The table of SBOM node checksums.
pub open spec fn checksum_table() -> Seq<char> {
    "sbom_node_checksum"@
}

/// The name of the index.
pub open spec fn checksum_index() -> Seq<char> {
    "sbom_node_checksum_value_type_idx"@
}

impl Migration {
    /// Creates the index over the value and type columns, unless it exists.
    pub fn up(&self) -> (change: SchemaChange)
        ensures
            change matches SchemaChange::CreateIndex { table, name, columns, if_not_exists } && {
                &&& table@ == checksum_table()
                &&& name@ == checksum_index()
                &&& columns.deep_view() == seq!["value"@, "type"@]
                &&& if_not_exists
            },
    {
        let mut columns: Vec<String> = Vec::new();
        columns.push("value".to_owned());
        columns.push("type".to_owned());
        assert(columns.deep_view() =~= seq!["value"@, "type"@]);
        SchemaChange::CreateIndex {
            table: "sbom_node_checksum".to_owned(),
            name: "sbom_node_checksum_value_type_idx".to_owned(),
            columns,
            if_not_exists: true,
        }
    }

    /// Drops the index, if it exists.
    pub fn down(&self) -> (change: SchemaChange)
        ensures
            change matches SchemaChange::DropIndex { table, name, if_exists } && {
                &&& table@ == checksum_table()
                &&& name@ == checksum_index()
                &&& if_exists
            },
    {
        SchemaChange::DropIndex {
            table: "sbom_node_checksum".to_owned(),
            name: "sbom_node_checksum_value_type_idx".to_owned(),
            if_exists: true,
        }
    }
}

} // verus!
