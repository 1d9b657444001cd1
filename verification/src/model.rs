//! What an ingestion reports back to its caller.

use vstd::prelude::*;

verus! {

/// The identifier of an ingested document.
#[derive(Clone, Copy, Debug, PartialEq, Eq, Structural)]
pub enum Id {
    Uuid(u128),
}

/// The outcome of ingesting one document.
#[derive(Debug)]
pub struct IngestResult {
    pub id: Id,
    pub document_id: Option<String>,
    pub warnings: Vec<String>,
}

/// The result of an ingestion that stored the document under `uuid`, with no warnings.
pub fn ingest_result(uuid: u128, document_id: Option<String>) -> (r: IngestResult)
    ensures
        r.id == Id::Uuid(uuid),
        r.document_id == document_id,
        r.warnings@.len() == 0,
{
    IngestResult { id: Id::Uuid(uuid), document_id, warnings: Vec::new() }
}

} // verus!
