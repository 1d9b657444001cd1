use trustify::curation::{curation_step, ClearlyDefinedCurationLoader, CurationStep, Outcome};
use trustify::model::{ingest_result, Id};

#[test]
fn existing_sbom_is_only_reported() {
    assert_eq!(curation_step(Outcome::Existed("sbom")), CurationStep::Report("sbom"));
}

#[test]
fn new_sbom_gets_the_curation_and_a_commit() {
    assert_eq!(curation_step(Outcome::Added("sbom")), CurationStep::IngestCurationAndCommit("sbom"));
}

#[test]
fn result_has_no_warnings() {
    let r = ingest_result(0x1234, Some("doc".to_string()));
    assert_eq!(r.id, Id::Uuid(0x1234));
    assert_eq!(r.document_id, Some("doc".to_string()));
    assert!(r.warnings.is_empty());
}

#[test]
fn curation_loader_keeps_its_graph() {
    let graph = String::from("graph");
    let loader = ClearlyDefinedCurationLoader::new(&graph);
    assert_eq!(loader.graph(), "graph");
}
