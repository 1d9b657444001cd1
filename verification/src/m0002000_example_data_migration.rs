//! The data migration that gives every SBOM a JSON `properties` column,
//! filled from each stored document.

use vstd::prelude::*;
use crate::schema_change::SchemaChange;

verus! {

/// Adds a `properties` column to SBOMs and fills it from each stored document.
pub struct Migration;

/// The format of a stored SBOM document.
#[derive(Clone, Copy, Debug, PartialEq, Eq, Structural)]
pub enum SbomFormat {
    CycloneDx,
    Spdx,
}

/// Where the `properties` of an SBOM come from.
#[derive(Clone, Copy, Debug, PartialEq, Eq, Structural)]
pub enum Properties {
    /// The properties extracted from the CycloneDX document.
    ExtractedFromDocument,
    /// An empty JSON object.
    EmptyObject,
}

/// The table of SBOMs.
pub open spec fn sbom_table() -> Seq<char> {
    "sbom"@
}

/// The added column.
pub open spec fn properties_column() -> Seq<char> {
    "properties"@
}

impl Migration {
    /// The schema changes before the documents are processed: add the column
    /// (nullable, default `null`) unless it exists, then forbid `null` in it.
    pub fn up_schema(&self) -> (changes: Vec<SchemaChange>)
        ensures
            changes@.len() == 2,
            changes@[0] matches SchemaChange::AddJsonColumnDefaultNull { table, column, if_not_exists } && {
                &&& table@ == sbom_table()
                &&& column@ == properties_column()
                &&& if_not_exists
            },
            changes@[1] matches SchemaChange::SetNotNull { table, column } && {
                &&& table@ == sbom_table()
                &&& column@ == properties_column()
            },
    {
        let mut changes: Vec<SchemaChange> = Vec::new();
        changes.push(
            SchemaChange::AddJsonColumnDefaultNull {
                table: "sbom".to_owned(),
                column: "properties".to_owned(),
                if_not_exists: true,
            },
        );
        changes.push(SchemaChange::SetNotNull { table: "sbom".to_owned(), column: "properties".to_owned() });
        changes
    }

    /// The properties stored for an SBOM of the given format: extracted from
    /// a CycloneDX document, an empty object for an SPDX one.
    pub fn properties_for(&self, format: SbomFormat) -> (p: Properties)
        ensures
            format == SbomFormat::CycloneDx ==> p == Properties::ExtractedFromDocument,
            format == SbomFormat::Spdx ==> p == Properties::EmptyObject,
    {
        match format {
            SbomFormat::CycloneDx => Properties::ExtractedFromDocument,
            SbomFormat::Spdx => Properties::EmptyObject,
        }
    }

    /// Drops the column.
    pub fn down(&self) -> (change: SchemaChange)
        ensures
            change matches SchemaChange::DropColumn { table, column } && {
                &&& table@ == sbom_table()
                &&& column@ == properties_column()
            },
    {
        SchemaChange::DropColumn { table: "sbom".to_owned(), column: "properties".to_owned() }
    }
}

} // verus!
