//! Loading ClearlyDefined curations: an SBOM is ingested for the curation,
//! and the curation itself only when that SBOM is new.

use vstd::prelude::*;

verus! {

/// Whether ingesting a document stored it anew or found it stored already.
#[derive(Debug, PartialEq, Eq)]
pub enum Outcome<T> {
    Existed(T),
    Added(T),
}

/// What the loader does once the SBOM of a curation has been ingested.
#[derive(Debug, PartialEq, Eq)]
pub enum CurationStep<T> {
    /// The SBOM was stored already: report it; nothing is written or committed.
    Report(T),
    /// The SBOM is new: ingest the curation into it, commit, then report it.
    IngestCurationAndCommit(T),
}

/// The step that follows the ingestion of a curation's SBOM.
pub fn curation_step<T>(outcome: Outcome<T>) -> (step: CurationStep<T>)
    ensures
        match outcome {
            Outcome::Existed(sbom) => step == CurationStep::Report(sbom),
            Outcome::Added(sbom) => step == CurationStep::IngestCurationAndCommit(sbom),
        },
{
    match outcome {
        Outcome::Existed(sbom) => CurationStep::Report(sbom),
        Outcome::Added(sbom) => CurationStep::IngestCurationAndCommit(sbom),
    }
}

/// Loads ClearlyDefined curations into the graph it was made with.
pub struct ClearlyDefinedCurationLoader<'g, G> {
    graph: &'g G,
}

impl<'g, G> ClearlyDefinedCurationLoader<'g, G> {
    /// The graph this loader records into.
    pub closed spec fn spec_graph(&self) -> &'g G {
        self.graph
    }

    /// A loader that records into `graph`.
    pub fn new(graph: &'g G) -> (loader: Self)
        ensures
            loader.spec_graph() == graph,
    {
        ClearlyDefinedCurationLoader { graph }
    }

    /// The graph this loader records into.
    pub fn graph(&self) -> (graph: &'g G)
        ensures
            graph == self.spec_graph(),
    {
        self.graph
    }
}

} // verus!
