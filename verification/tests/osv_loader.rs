use trustify::osv_loader::{
    cve_ids, cvss3_scores, detect_organization, events_to_range, get_well_known_prefixes, package_statuses,
    plan_ingest, range_statuses, OsvLoader,
};
use trustify::osv_model::{
    AffectedEntry, RangeEvent, AffectedPackage, PackageStatus, AffectedRange, RecordReference, ReferenceKind, SeverityScore, SeverityKind, Status,
    Timestamp, Version, VersionInfo, VersionSpec, Record,
};

fn s(v: &str) -> String {
    v.to_string()
}

fn affected_range(purl: &str, from: Version<String>, to: Version<String>) -> PackageStatus<String> {
    PackageStatus {
        purl: s(purl),
        status: Status::Affected,
        info: VersionInfo { scheme: s("semver"), spec: VersionSpec::Range(from, to) },
    }
}

fn fixed(purl: &str, version: &str) -> PackageStatus<String> {
    PackageStatus {
        purl: s(purl),
        status: Status::Fixed,
        info: VersionInfo { scheme: s("semver"), spec: VersionSpec::Exact(s(version)) },
    }
}

/// The record RUSTSEC-2021-0079 (hyper), as far as ingestion reads it.
fn rustsec_2021_0079() -> Record {
    Record {
        id: s("RUSTSEC-2021-0079"),
        published: Some(Timestamp { secs: 1625788800, nanos: 0 }),
        modified: Timestamp { secs: 1636761600, nanos: 0 },
        withdrawn: None,
        aliases: Some(vec![s("CVE-2021-32714"), s("GHSA-5h46-h7hh-c6x9")]),
        summary: Some(s("Integer overflow in `hyper`'s parsing of the `Transfer-Encoding` header leads to data loss")),
        details: Some(s("When decoding chunk sizes that are too large, hyper's code would encounter an integer overflow.")),
        affected: vec![AffectedEntry {
            package: Some(AffectedPackage { name: s("hyper"), purl: Some(s("pkg:cargo/hyper")) }),
            ranges: Some(vec![AffectedRange { events: vec![RangeEvent::Introduced(s("0.0.0-0")), RangeEvent::Fixed(s("0.14.10"))] }]),
        }],
        references: Some(vec![
            RecordReference { reference_type: ReferenceKind::Package, url: s("https://crates.io/crates/hyper") },
            RecordReference {
                reference_type: ReferenceKind::Advisory,
                url: s("https://rustsec.org/advisories/RUSTSEC-2021-0079.html"),
            },
            RecordReference { reference_type: ReferenceKind::Web, url: s("https://github.com/hyperium/hyper/pull/2547") },
        ]),
        severity: Some(vec![SeverityScore {
            severity_type: SeverityKind::CVSSv3,
            score: s("CVSS:3.1/AV:N/AC:L/PR:N/UI:N/S:U/C:N/I:H/A:H"),
        }]),
    }
}

#[test]
fn loader() {
    let osv = rustsec_2021_0079();
    let plan = plan_ingest(None, &osv);

    assert_eq!(plan.identifier, "RUSTSEC-2021-0079");
    assert_eq!(plan.information.issuer, Some(s("Rust Security Advisory Database")));
    assert_eq!(plan.information.title, osv.summary);
    assert_eq!(plan.information.published, osv.published);
    assert_eq!(plan.information.modified, Some(osv.modified));
    assert_eq!(plan.withdrawn_at, None);

    assert_eq!(1, plan.vulnerabilities.len());
    let vuln = &plan.vulnerabilities[0];
    assert_eq!(vuln.cve_id, "CVE-2021-32714");
    assert_eq!(vuln.information.summary, osv.summary);
    assert_eq!(vuln.information.description, osv.details);
    assert_eq!(vuln.cvss3_scores, vec![s("CVSS:3.1/AV:N/AC:L/PR:N/UI:N/S:U/C:N/I:H/A:H")]);
    assert_eq!(
        vuln.statuses,
        vec![
            affected_range("pkg:cargo/hyper", Version::Inclusive(s("0.0.0-0")), Version::Exclusive(s("0.14.10"))),
            fixed("pkg:cargo/hyper", "0.14.10"),
        ]
    );
    assert!(!plan.vulnerabilities.iter().any(|v| v.cve_id == "CVE-8675309"));
}

#[test]
fn given_issuer_wins_over_detected() {
    let osv = rustsec_2021_0079();
    let plan = plan_ingest(Some(s("Someone Else")), &osv);
    assert_eq!(plan.information.issuer, Some(s("Someone Else")));
}

#[test]
fn well_known_prefix_detects_rustsec() {
    let m = get_well_known_prefixes();
    assert_eq!(
        m.detect("https://rustsec.org/advisories/RUSTSEC-2021-0079.html"),
        Some(s("Rust Security Advisory Database"))
    );
    assert_eq!(m.detect("https://rustsec.org/advisories/"), None);
    assert_eq!(m.detect("https://github.com/advisories/GHSA-5h46-h7hh-c6x9"), None);
    assert_eq!(m.detect(""), None);
}

#[test]
fn detect_organization_reads_only_first_advisory_reference() {
    let mut osv = rustsec_2021_0079();
    osv.references = Some(vec![
        RecordReference { reference_type: ReferenceKind::Advisory, url: s("https://example.com/advisory/1") },
        RecordReference {
            reference_type: ReferenceKind::Advisory,
            url: s("https://rustsec.org/advisories/RUSTSEC-2021-0079.html"),
        },
    ]);
    assert_eq!(detect_organization(&osv), None);
    osv.references = None;
    assert_eq!(detect_organization(&osv), None);
    osv.references = Some(vec![RecordReference {
        reference_type: ReferenceKind::Web,
        url: s("https://rustsec.org/advisories/RUSTSEC-2021-0079.html"),
    }]);
    assert_eq!(detect_organization(&osv), None);
}

#[test]
fn events_to_range_takes_first_introduced_and_first_fixed() {
    let events = vec![
        RangeEvent::Limit(s("9")),
        RangeEvent::Fixed(s("2")),
        RangeEvent::LastAffected(s("1.5")),
        RangeEvent::Introduced(s("1")),
        RangeEvent::Fixed(s("3")),
        RangeEvent::Introduced(s("0")),
    ];
    assert_eq!(events_to_range(&events), (Some(s("1")), Some(s("2"))));
    assert_eq!(events_to_range(&[]), (None, None));
    assert_eq!(events_to_range(&[RangeEvent::Limit(s("4")), RangeEvent::LastAffected(s("3"))]), (None, None));
}

#[test]
fn range_statuses_for_each_shape() {
    let purl = s("pkg:cargo/x");
    assert_eq!(
        range_statuses(&purl, &[RangeEvent::Introduced(s("1.0"))]),
        vec![affected_range("pkg:cargo/x", Version::Inclusive(s("1.0")), Version::Unbounded)]
    );
    assert_eq!(
        range_statuses(&purl, &[RangeEvent::Fixed(s("2.0"))]),
        vec![
            affected_range("pkg:cargo/x", Version::Unbounded, Version::Exclusive(s("2.0"))),
            fixed("pkg:cargo/x", "2.0"),
        ]
    );
    assert_eq!(
        range_statuses(&purl, &[RangeEvent::Introduced(s("1.0")), RangeEvent::Fixed(s("2.0"))]),
        vec![
            affected_range("pkg:cargo/x", Version::Inclusive(s("1.0")), Version::Exclusive(s("2.0"))),
            fixed("pkg:cargo/x", "2.0"),
        ]
    );
    assert_eq!(range_statuses(&purl, &[RangeEvent::LastAffected(s("1.0"))]), vec![]);
}

#[test]
fn package_statuses_go_entry_by_entry_purl_by_purl_range_by_range() {
    let affected = vec![
        AffectedEntry { package: None, ranges: Some(vec![AffectedRange { events: vec![RangeEvent::Introduced(s("9"))] }]) },
        AffectedEntry {
            package: Some(AffectedPackage { name: s("a"), purl: Some(s("pkg:a")) }),
            ranges: Some(vec![
                AffectedRange { events: vec![RangeEvent::Introduced(s("1"))] },
                AffectedRange { events: vec![RangeEvent::Fixed(s("2"))] },
            ]),
        },
        AffectedEntry {
            package: Some(AffectedPackage { name: s("no-purl"), purl: None }),
            ranges: Some(vec![AffectedRange { events: vec![RangeEvent::Introduced(s("3"))] }]),
        },
        AffectedEntry {
            package: Some(AffectedPackage { name: s("b"), purl: Some(s("pkg:b")) }),
            ranges: Some(vec![
                AffectedRange { events: vec![RangeEvent::Introduced(s("1"))] },
                AffectedRange { events: vec![RangeEvent::Fixed(s("2"))] },
            ]),
        },
        AffectedEntry { package: Some(AffectedPackage { name: s("c"), purl: Some(s("pkg:c")) }), ranges: None },
    ];
    assert_eq!(
        package_statuses(&affected),
        vec![
            affected_range("pkg:a", Version::Inclusive(s("1")), Version::Unbounded),
            affected_range("pkg:a", Version::Unbounded, Version::Exclusive(s("2"))),
            fixed("pkg:a", "2"),
            affected_range("pkg:b", Version::Inclusive(s("1")), Version::Unbounded),
            affected_range("pkg:b", Version::Unbounded, Version::Exclusive(s("2"))),
            fixed("pkg:b", "2"),
        ]
    );
}

#[test]
fn cve_ids_keep_only_cve_aliases_in_order() {
    let mut osv = rustsec_2021_0079();
    osv.aliases = Some(vec![s("GHSA-1"), s("CVE-2020-1"), s("cve-2020-2"), s("CVE-2020-3"), s("CVE")]);
    assert_eq!(cve_ids(&osv), vec![s("CVE-2020-1"), s("CVE-2020-3")]);
    osv.aliases = None;
    assert_eq!(cve_ids(&osv), Vec::<String>::new());
    let plan = plan_ingest(None, &osv);
    assert!(plan.vulnerabilities.is_empty());
}

#[test]
fn every_cve_gets_the_same_scores_and_statuses() {
    let mut osv = rustsec_2021_0079();
    osv.aliases = Some(vec![s("CVE-2021-1"), s("CVE-2021-2")]);
    osv.withdrawn = Some(Timestamp { secs: 1700000000, nanos: 5 });
    let plan = plan_ingest(None, &osv);
    assert_eq!(plan.withdrawn_at, osv.withdrawn);
    assert_eq!(plan.information.withdrawn, osv.withdrawn);
    assert_eq!(plan.vulnerabilities.len(), 2);
    assert_eq!(plan.vulnerabilities[0].cve_id, "CVE-2021-1");
    assert_eq!(plan.vulnerabilities[1].cve_id, "CVE-2021-2");
    assert_eq!(plan.vulnerabilities[0].statuses, plan.vulnerabilities[1].statuses);
    assert_eq!(plan.vulnerabilities[0].cvss3_scores, plan.vulnerabilities[1].cvss3_scores);
}

#[test]
fn cvss3_scores_skip_other_severities() {
    let mut osv = rustsec_2021_0079();
    osv.severity = Some(vec![
        SeverityScore { severity_type: SeverityKind::CVSSv2, score: s("AV:N/AC:L/Au:N/C:N/I:N/A:P") },
        SeverityScore { severity_type: SeverityKind::CVSSv3, score: s("CVSS:3.1/AV:N") },
        SeverityScore { severity_type: SeverityKind::CVSSv4, score: s("CVSS:4.0/AV:N") },
    ]);
    assert_eq!(cvss3_scores(&osv), vec![s("CVSS:3.1/AV:N")]);
    osv.severity = None;
    assert!(cvss3_scores(&osv).is_empty());
}

#[test]
fn osv_loader_keeps_its_graph() {
    let graph = 42u32;
    let loader = OsvLoader::new(&graph);
    assert_eq!(*loader.graph(), 42);
}

#[test]
fn status_labels() {
    assert_eq!(Status::Affected.label(), "affected");
    assert_eq!(Status::Fixed.label(), "fixed");
}

const RUSTSEC_2021_0079_JSON: &str = r#"{
  "id": "RUSTSEC-2021-0079",
  "modified": "2021-11-13T00:00:00Z",
  "published": "2021-07-09T00:00:00Z",
  "aliases": ["CVE-2021-32714", "GHSA-5h46-h7hh-c6x9"],
  "summary": "Integer overflow in `hyper`'s parsing of the `Transfer-Encoding` header leads to data loss",
  "details": "When decoding chunk sizes that are too large, hyper's code would encounter an integer overflow.",
  "severity": [{"type": "CVSS_V3", "score": "CVSS:3.1/AV:N/AC:L/PR:N/UI:N/S:U/C:N/I:H/A:H"}],
  "affected": [{
    "package": {"ecosystem": "crates.io", "name": "hyper", "purl": "pkg:cargo/hyper"},
    "ranges": [{"type": "SEMVER", "events": [{"introduced": "0.0.0-0"}, {"fixed": "0.14.10"}]}]
  }],
  "references": [
    {"type": "PACKAGE", "url": "https://crates.io/crates/hyper"},
    {"type": "ADVISORY", "url": "https://rustsec.org/advisories/RUSTSEC-2021-0079.html"}
  ]
}"#;

#[test]
fn parse_osv_reads_the_record() {
    let osv = trustify::osv_json::parse_osv(RUSTSEC_2021_0079_JSON.as_bytes()).unwrap();
    assert_eq!(osv.id, "RUSTSEC-2021-0079");
    assert_eq!(osv.aliases, Some(vec![s("CVE-2021-32714"), s("GHSA-5h46-h7hh-c6x9")]));
    assert_eq!(osv.modified, Timestamp { secs: 1636761600, nanos: 0 });
    assert_eq!(osv.published, Some(Timestamp { secs: 1625788800, nanos: 0 }));
    assert_eq!(osv.affected.len(), 1);
    assert_eq!(osv.affected[0].package.as_ref().unwrap().purl, Some(s("pkg:cargo/hyper")));
    assert_eq!(osv.affected[0].package.as_ref().unwrap().name, "hyper");
    let ranges = osv.affected[0].ranges.as_ref().unwrap();
    assert_eq!(ranges[0].events, vec![RangeEvent::Introduced(s("0.0.0-0")), RangeEvent::Fixed(s("0.14.10"))]);
    let refs = osv.references.as_ref().unwrap();
    assert_eq!(refs[1].reference_type, ReferenceKind::Advisory);
    assert_eq!(osv.severity.as_ref().unwrap()[0].severity_type, SeverityKind::CVSSv3);
}

#[test]
fn plan_from_json_matches_plan_from_record() {
    let plan = trustify::osv_loader::plan_ingest_json(None, RUSTSEC_2021_0079_JSON.as_bytes()).unwrap();
    assert_eq!(plan.identifier, "RUSTSEC-2021-0079");
    assert_eq!(plan.information.issuer, Some(s("Rust Security Advisory Database")));
    assert_eq!(plan.vulnerabilities.len(), 1);
    assert_eq!(plan.vulnerabilities[0].cve_id, "CVE-2021-32714");
    assert_eq!(plan.vulnerabilities[0].cvss3_scores, vec![s("CVSS:3.1/AV:N/AC:L/PR:N/UI:N/S:U/C:N/I:H/A:H")]);
    assert_eq!(
        plan.vulnerabilities[0].statuses,
        vec![
            affected_range("pkg:cargo/hyper", Version::Inclusive(s("0.0.0-0")), Version::Exclusive(s("0.14.10"))),
            fixed("pkg:cargo/hyper", "0.14.10"),
        ]
    );
}

#[test]
fn invalid_json_is_an_error() {
    assert!(trustify::osv_loader::plan_ingest_json(None, b"{").is_err());
    assert!(trustify::osv_loader::plan_ingest_json(None, b"{\"id\": 5}").is_err());
    assert!(trustify::osv_json::parse_osv(b"").is_err());
}
