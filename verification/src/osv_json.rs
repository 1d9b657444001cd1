//! Reading an OSV record from its JSON text into the model that ingestion reads.
//!
//! The JSON grammar and the OSV schema are interpreted by `serde_json` and the
//! `osv` crate; the record they yield is then turned into the plain values of
//! `osv_model`, field by field and item by item.

use vstd::prelude::*;
use crate::osv_model as model;

verus! {

#[verifier::external_type_specification]
#[verifier::external_body]
pub struct ExJsonError(serde_json::Error);

#[verifier::external_type_specification]
#[verifier::external_body]
pub struct ExOsvVulnerability(osv::schema::Vulnerability);

#[verifier::external_type_specification]
#[verifier::external_body]
pub struct ExOsvAffected(osv::schema::Affected);

#[verifier::external_type_specification]
#[verifier::external_body]
pub struct ExOsvRange(osv::schema::Range);

#[verifier::external_type_specification]
pub struct ExOsvEvent(osv::schema::Event);

#[verifier::external_type_specification]
pub struct ExOsvReference(osv::schema::Reference);

#[verifier::external_type_specification]
pub struct ExOsvSeverity(osv::schema::Severity);

#[verifier::external_type_specification]
pub struct ExOsvReferenceType(osv::schema::ReferenceType);

#[verifier::external_type_specification]
pub struct ExOsvSeverityType(osv::schema::SeverityType);

/// The record that the JSON text `json` holds, as the model reads it: what
/// `serde_json::from_slice` makes of the text as an `osv::schema::Vulnerability`,
/// field by field; `None` where that parse fails.
pub uninterp spec fn parsed_osv(json: Seq<u8>) -> Option<model::Record>;

/// Parses OSV JSON text with `serde_json::from_slice` into the `osv` crate's
/// record and returns that record as the model reads it. The contract claims
/// only that the outcome is a function of the text (`parsed_osv`): success
/// exactly when `parsed_osv` has a record, and then that record. Which texts
/// parse, and into what, is the `osv` schema's and `serde_json`'s and is not stated.
#[verifier::external_body]
pub fn parse_osv(json: &[u8]) -> (res: Result<model::Record, serde_json::Error>)
    ensures
        res is Ok <==> parsed_osv(json@) is Some,
        res matches Ok(v) ==> parsed_osv(json@) == Some(v),
{
    serde_json::from_slice::<osv::schema::Vulnerability>(json).map(|v| vulnerability_from_osv(&v))
}

// The functions below turn the `osv` crate's record into the model, one value
// for one value, copying each field the model holds and leaving out the rest
// (a package's ecosystem among them). `parse_osv` alone calls them, and its
// named result covers what they produce. Events, severities and references
// are read through their declared variants and fields, so their conversions
// are verified: each keeps the kind and the text of what it converts. The
// record, its affected entries, ranges and times are opaque here.

#[verifier::external_body]
fn vulnerability_from_osv(v: &osv::schema::Vulnerability) -> model::Record {
    let (published, modified, withdrawn) = times_from_osv(v);
    model::Record {
        id: v.id.clone(),
        published,
        modified,
        withdrawn,
        aliases: v.aliases.clone(),
        summary: v.summary.clone(),
        details: v.details.clone(),
        affected: v.affected.iter().map(affected_from_osv).collect(),
        references: v.references.as_ref().map(|r| r.iter().map(reference_from_osv).collect()),
        severity: v.severity.as_ref().map(|s| s.iter().map(severity_from_osv).collect()),
    }
}

#[verifier::external_body]
fn times_from_osv(v: &osv::schema::Vulnerability) -> (Option<model::Timestamp>, model::Timestamp, Option<model::Timestamp>) {
    (
        v.published.map(|t| model::Timestamp { secs: t.timestamp(), nanos: t.timestamp_subsec_nanos() }),
        model::Timestamp { secs: v.modified.timestamp(), nanos: v.modified.timestamp_subsec_nanos() },
        v.withdrawn.map(|t| model::Timestamp { secs: t.timestamp(), nanos: t.timestamp_subsec_nanos() }),
    )
}

#[verifier::external_body]
fn affected_from_osv(a: &osv::schema::Affected) -> model::AffectedEntry {
    model::AffectedEntry {
        package: a.package.as_ref().map(|p| model::AffectedPackage { name: p.name.clone(), purl: p.purl.clone() }),
        ranges: a.ranges.as_ref().map(|r| r.iter().map(range_from_osv).collect()),
    }
}

#[verifier::external_body]
fn range_from_osv(r: &osv::schema::Range) -> model::AffectedRange {
    model::AffectedRange { events: r.events.iter().map(event_from_osv).collect() }
}

fn event_from_osv(e: &osv::schema::Event) -> (res: model::RangeEvent)
    ensures
        *e matches osv::schema::Event::Introduced(v) ==> res == model::RangeEvent::Introduced(v),
        *e matches osv::schema::Event::Fixed(v) ==> res == model::RangeEvent::Fixed(v),
        *e matches osv::schema::Event::LastAffected(v) ==> res == model::RangeEvent::LastAffected(v),
        *e matches osv::schema::Event::Limit(v) ==> res == model::RangeEvent::Limit(v),
{
    match e {
        osv::schema::Event::Introduced(v) => model::RangeEvent::Introduced(v.clone()),
        osv::schema::Event::Fixed(v) => model::RangeEvent::Fixed(v.clone()),
        osv::schema::Event::LastAffected(v) => model::RangeEvent::LastAffected(v.clone()),
        osv::schema::Event::Limit(v) => model::RangeEvent::Limit(v.clone()),
        _ => model::RangeEvent::Unrecognised,
    }
}

fn severity_from_osv(s: &osv::schema::Severity) -> (res: model::SeverityScore)
    ensures
        res.score == s.score,
        s.severity_type is CVSSv2 <==> res.severity_type == model::SeverityKind::CVSSv2,
        s.severity_type is CVSSv3 <==> res.severity_type == model::SeverityKind::CVSSv3,
        s.severity_type is CVSSv4 <==> res.severity_type == model::SeverityKind::CVSSv4,
        s.severity_type is Unspecified <==> res.severity_type == model::SeverityKind::Unspecified,
{
    let severity_type = match s.severity_type {
        osv::schema::SeverityType::CVSSv2 => model::SeverityKind::CVSSv2,
        osv::schema::SeverityType::CVSSv3 => model::SeverityKind::CVSSv3,
        osv::schema::SeverityType::CVSSv4 => model::SeverityKind::CVSSv4,
        osv::schema::SeverityType::Unspecified => model::SeverityKind::Unspecified,
        _ => model::SeverityKind::Unrecognised,
    };
    model::SeverityScore { severity_type, score: s.score.clone() }
}

fn reference_from_osv(r: &osv::schema::Reference) -> (res: model::RecordReference)
    ensures
        res.url == r.url,
        r.reference_type is Advisory <==> res.reference_type == model::ReferenceKind::Advisory,
        r.reference_type is Article <==> res.reference_type == model::ReferenceKind::Article,
        r.reference_type is Detection <==> res.reference_type == model::ReferenceKind::Detection,
        r.reference_type is Discussion <==> res.reference_type == model::ReferenceKind::Discussion,
        r.reference_type is Evidence <==> res.reference_type == model::ReferenceKind::Evidence,
        r.reference_type is Fix <==> res.reference_type == model::ReferenceKind::Fix,
        r.reference_type is Git <==> res.reference_type == model::ReferenceKind::Git,
        r.reference_type is Introduced <==> res.reference_type == model::ReferenceKind::Introduced,
        r.reference_type is Package <==> res.reference_type == model::ReferenceKind::Package,
        r.reference_type is Report <==> res.reference_type == model::ReferenceKind::Report,
        r.reference_type is Undefined <==> res.reference_type == model::ReferenceKind::Undefined,
        r.reference_type is Web <==> res.reference_type == model::ReferenceKind::Web,
{
    model::RecordReference { reference_type: reference_type_from_osv(&r.reference_type), url: r.url.clone() }
}

fn reference_type_from_osv(t: &osv::schema::ReferenceType) -> (res: model::ReferenceKind)
    ensures
        *t is Advisory <==> res == model::ReferenceKind::Advisory,
        *t is Article <==> res == model::ReferenceKind::Article,
        *t is Detection <==> res == model::ReferenceKind::Detection,
        *t is Discussion <==> res == model::ReferenceKind::Discussion,
        *t is Evidence <==> res == model::ReferenceKind::Evidence,
        *t is Fix <==> res == model::ReferenceKind::Fix,
        *t is Git <==> res == model::ReferenceKind::Git,
        *t is Introduced <==> res == model::ReferenceKind::Introduced,
        *t is Package <==> res == model::ReferenceKind::Package,
        *t is Report <==> res == model::ReferenceKind::Report,
        *t is Undefined <==> res == model::ReferenceKind::Undefined,
        *t is Web <==> res == model::ReferenceKind::Web,
{
    match t {
        osv::schema::ReferenceType::Advisory => model::ReferenceKind::Advisory,
        osv::schema::ReferenceType::Article => model::ReferenceKind::Article,
        osv::schema::ReferenceType::Detection => model::ReferenceKind::Detection,
        osv::schema::ReferenceType::Discussion => model::ReferenceKind::Discussion,
        osv::schema::ReferenceType::Evidence => model::ReferenceKind::Evidence,
        osv::schema::ReferenceType::Fix => model::ReferenceKind::Fix,
        osv::schema::ReferenceType::Git => model::ReferenceKind::Git,
        osv::schema::ReferenceType::Introduced => model::ReferenceKind::Introduced,
        osv::schema::ReferenceType::Package => model::ReferenceKind::Package,
        osv::schema::ReferenceType::Report => model::ReferenceKind::Report,
        osv::schema::ReferenceType::Undefined => model::ReferenceKind::Undefined,
        osv::schema::ReferenceType::Web => model::ReferenceKind::Web,
        _ => model::ReferenceKind::Unrecognised,
    }
}

} // verus!
