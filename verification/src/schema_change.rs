//! Schema changes that migrations apply, as plain values.

use vstd::prelude::*;

verus! {

/// One change to the database schema.
#[derive(Debug)]
pub enum SchemaChange {
    /// Create an index over `columns` of `table`.
    CreateIndex { table: String, name: String, columns: Vec<String>, if_not_exists: bool },
    /// Drop an index of `table`.
    DropIndex { table: String, name: String, if_exists: bool },
    /// Add a JSON column to `table`, with `null` as its default.
    AddJsonColumnDefaultNull { table: String, column: String, if_not_exists: bool },
    /// Forbid `null` in a column.
    SetNotNull { table: String, column: String },
    /// Drop a column.
    DropColumn { table: String, column: String },
}

} // verus!
