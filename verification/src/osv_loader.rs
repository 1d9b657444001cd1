//! Advisory ingestion for OSV records: what the loader records for a record,
//! computed from the record alone and executed by the caller against the graph.

use vstd::prelude::*;
use crate::osv_model::{
    statuses_view, AffectedEntry, AffectedPackage, RangeEvent, AffectedRange, PackageStatus, RecordReference, ReferenceKind, SeverityScore, SeverityKind, Status,
    Timestamp, Version, VersionInfo, VersionSpec, Record,
};
use crate::osv_json::{parse_osv, parsed_osv};
use crate::prefix::{first_match, PrefixMatcher};
use crate::text::{has_prefix, starts_with};

verus! {

/// The version of the first `Introduced` event, if any.
pub open spec fn first_introduced(events: Seq<RangeEvent>) -> Option<Seq<char>>
    decreases events.len(),
{
    if events.len() == 0 {
        None
    } else {
        match events[0] {
            RangeEvent::Introduced(v) => Some(v@),
            _ => first_introduced(events.drop_first()),
        }
    }
}

/// The version of the first `Fixed` event, if any.
pub open spec fn first_fixed(events: Seq<RangeEvent>) -> Option<Seq<char>>
    decreases events.len(),
{
    if events.len() == 0 {
        None
    } else {
        match events[0] {
            RangeEvent::Fixed(v) => Some(v@),
            _ => first_fixed(events.drop_first()),
        }
    }
}

/// The start and the end of the range that a list of events describes:
/// the first introduced version and the first fixed version.
pub fn events_to_range(events: &[RangeEvent]) -> (res: (Option<String>, Option<String>))
    ensures
        res.0.deep_view() == first_introduced(events@),
        res.1.deep_view() == first_fixed(events@),
{
    let n = events.len();
    let mut start: Option<String> = None;
    let mut end: Option<String> = None;
    let mut i: usize = 0;
    assert(events@.skip(0) =~= events@);
    while i < n
        invariant
            n == events@.len(),
            i <= n,
            start is None ==> first_introduced(events@) == first_introduced(events@.skip(i as int)),
            start is Some ==> start.deep_view() == first_introduced(events@),
            end is None ==> first_fixed(events@) == first_fixed(events@.skip(i as int)),
            end is Some ==> end.deep_view() == first_fixed(events@),
        decreases n - i,
    {
        assert(events@.skip(i as int)[0] == events@[i as int]);
        assert(events@.skip(i as int).drop_first() =~= events@.skip(i + 1));
        match &events[i] {
            RangeEvent::Introduced(v) => {
                if start.is_none() {
                    start = Some(v.clone());
                }
            },
            RangeEvent::Fixed(v) => {
                if end.is_none() {
                    end = Some(v.clone());
                }
            },
            _ => {},
        }
        i = i + 1;
    }
    assert(events@.skip(n as int) =~= Seq::<RangeEvent>::empty());
    (start, end)
}

/// The version scheme that OSV ranges are recorded under.
pub open spec fn semver_scheme() -> Seq<char> {
    "semver"@
}

/// The statuses recorded for one package URL and one range of events:
/// an `affected` range from the first introduced version (inclusive) to the
/// first fixed version (exclusive), either side unbounded when missing and
/// nothing when both are missing; then, when a fixed version exists, that
/// exact version as `fixed`.
pub open spec fn spec_range_statuses(purl: Seq<char>, events: Seq<RangeEvent>) -> Seq<PackageStatus<Seq<char>>> {
    let affected = |from: Version<Seq<char>>, to: Version<Seq<char>>|
        PackageStatus {
            purl,
            status: Status::Affected,
            info: VersionInfo { scheme: semver_scheme(), spec: VersionSpec::Range(from, to) },
        };
    let ranged = match (first_introduced(events), first_fixed(events)) {
        (Some(start), None) => seq![affected(Version::Inclusive(start), Version::Unbounded)],
        (None, Some(end)) => seq![affected(Version::Unbounded, Version::Exclusive(end))],
        (Some(start), Some(end)) => seq![affected(Version::Inclusive(start), Version::Exclusive(end))],
        (None, None) => Seq::empty(),
    };
    let fixed = match first_fixed(events) {
        Some(end) => seq![
            PackageStatus {
                purl,
                status: Status::Fixed,
                info: VersionInfo { scheme: semver_scheme(), spec: VersionSpec::Exact(end) },
            },
        ],
        None => Seq::empty(),
    };
    ranged + fixed
}

fn semver() -> (s: String)
    ensures
        s@ == semver_scheme(),
{
    "semver".to_owned()
}

fn affected_status(purl: &String, from: Version<String>, to: Version<String>) -> (p: PackageStatus<String>)
    ensures
        p@ == (PackageStatus {
            purl: purl@,
            status: Status::Affected,
            info: VersionInfo { scheme: semver_scheme(), spec: VersionSpec::Range(from@, to@) },
        }),
{
    PackageStatus {
        purl: purl.clone(),
        status: Status::Affected,
        info: VersionInfo { scheme: semver(), spec: VersionSpec::Range(from, to) },
    }
}

/// The statuses recorded for one package URL and one range.
pub fn range_statuses(purl: &String, events: &[RangeEvent]) -> (res: Vec<PackageStatus<String>>)
    ensures
        statuses_view(res@) == spec_range_statuses(purl@, events@),
{
    let (start, end) = events_to_range(events);
    let mut res: Vec<PackageStatus<String>> = Vec::new();
    match (&start, &end) {
        (Some(s), None) => {
            res.push(affected_status(purl, Version::Inclusive(s.clone()), Version::Unbounded));
        },
        (None, Some(e)) => {
            res.push(affected_status(purl, Version::Unbounded, Version::Exclusive(e.clone())));
        },
        (Some(s), Some(e)) => {
            res.push(affected_status(purl, Version::Inclusive(s.clone()), Version::Exclusive(e.clone())));
        },
        (None, None) => {},
    }
    if let Some(e) = &end {
        res.push(
            PackageStatus {
                purl: purl.clone(),
                status: Status::Fixed,
                info: VersionInfo { scheme: semver(), spec: VersionSpec::Exact(e.clone()) },
            },
        );
    }
    assert(statuses_view(res@) =~= spec_range_statuses(purl@, events@));
    res
}

/// The statuses for one package URL over a list of ranges, range by range.
pub open spec fn spec_purl_statuses(purl: Seq<char>, ranges: Seq<AffectedRange>) -> Seq<PackageStatus<Seq<char>>>
    decreases ranges.len(),
{
    if ranges.len() == 0 {
        Seq::empty()
    } else {
        spec_purl_statuses(purl, ranges.drop_last()) + spec_range_statuses(purl, ranges.last().events@)
    }
}

/// The ranges of an affected entry; none when the list is absent.
pub open spec fn affected_ranges(a: AffectedEntry) -> Seq<AffectedRange> {
    match a.ranges {
        Some(r) => r@,
        None => Seq::empty(),
    }
}

/// The statuses for the package URLs of an affected entry, URL by URL,
/// each over all ranges of the entry.
pub open spec fn spec_purls_statuses(purls: Seq<String>, ranges: Seq<AffectedRange>) -> Seq<PackageStatus<Seq<char>>>
    decreases purls.len(),
{
    if purls.len() == 0 {
        Seq::empty()
    } else {
        spec_purls_statuses(purls.drop_last(), ranges) + spec_purl_statuses(purls.last()@, ranges)
    }
}

/// The package URLs whose statuses are recorded for a package: its own
/// `purl`, when the record gives one.
pub open spec fn package_purls(p: AffectedPackage) -> Seq<String> {
    match p.purl {
        Some(u) => seq![u],
        None => Seq::empty(),
    }
}

/// The package URLs of a package, as `package_purls` defines them.
pub fn purls_of(p: &AffectedPackage) -> (purls: Vec<String>)
    ensures
        purls@ == package_purls(*p),
{
    let mut purls: Vec<String> = Vec::new();
    if let Some(u) = &p.purl {
        purls.push(u.clone());
    }
    assert(purls@ =~= package_purls(*p));
    purls
}

/// The statuses for one affected entry: none without a package.
pub open spec fn spec_affected_statuses(a: AffectedEntry) -> Seq<PackageStatus<Seq<char>>> {
    match a.package {
        Some(p) => spec_purls_statuses(package_purls(p), affected_ranges(a)),
        None => Seq::empty(),
    }
}

/// The statuses for all affected entries, entry by entry.
pub open spec fn spec_package_statuses(affected: Seq<AffectedEntry>) -> Seq<PackageStatus<Seq<char>>>
    decreases affected.len(),
{
    if affected.len() == 0 {
        Seq::empty()
    } else {
        spec_package_statuses(affected.drop_last()) + spec_affected_statuses(affected.last())
    }
}

proof fn lemma_statuses_view_append(a: Seq<PackageStatus<String>>, b: Seq<PackageStatus<String>>)
    ensures
        statuses_view(a + b) == statuses_view(a) + statuses_view(b),
{
    assert(statuses_view(a + b) =~= statuses_view(a) + statuses_view(b));
}

/// The statuses for one package URL over a list of ranges.
pub fn purl_statuses(purl: &String, ranges: &[AffectedRange]) -> (res: Vec<PackageStatus<String>>)
    ensures
        statuses_view(res@) == spec_purl_statuses(purl@, ranges@),
{
    let mut res: Vec<PackageStatus<String>> = Vec::new();
    let n = ranges.len();
    let mut i: usize = 0;
    while i < n
        invariant
            n == ranges@.len(),
            i <= n,
            statuses_view(res@) == spec_purl_statuses(purl@, ranges@.take(i as int)),
        decreases n - i,
    {
        let mut more = range_statuses(purl, ranges[i].events.as_slice());
        proof {
            lemma_statuses_view_append(res@, more@);
            assert(ranges@.take(i + 1).drop_last() =~= ranges@.take(i as int));
        }
        res.append(&mut more);
        i = i + 1;
    }
    assert(ranges@.take(n as int) =~= ranges@);
    res
}

/// The statuses for one affected entry.
pub fn affected_statuses(a: &AffectedEntry) -> (res: Vec<PackageStatus<String>>)
    ensures
        statuses_view(res@) == spec_affected_statuses(*a),
{
    let mut res: Vec<PackageStatus<String>> = Vec::new();
    if let Some(package) = &a.package {
        let empty: Vec<AffectedRange> = Vec::new();
        let ranges: &[AffectedRange] = match &a.ranges {
            Some(r) => r.as_slice(),
            None => empty.as_slice(),
        };
        assert(ranges@ == affected_ranges(*a));
        let purls = purls_of(package);
        let n = purls.len();
        let mut i: usize = 0;
        while i < n
            invariant
                n == purls@.len(),
                i <= n,
                statuses_view(res@) == spec_purls_statuses(purls@.take(i as int), ranges@),
            decreases n - i,
        {
            let mut more = purl_statuses(&purls[i], ranges);
            proof {
                lemma_statuses_view_append(res@, more@);
                assert(purls@.take(i + 1).drop_last() =~= purls@.take(i as int));
            }
            res.append(&mut more);
            i = i + 1;
        }
        assert(purls@.take(n as int) =~= purls@);
    } else {
        assert(statuses_view(res@) =~= Seq::empty());
    }
    res
}

/// The statuses for all affected entries of a record, in the order the
/// loader records them.
pub fn package_statuses(affected: &[AffectedEntry]) -> (res: Vec<PackageStatus<String>>)
    ensures
        statuses_view(res@) == spec_package_statuses(affected@),
{
    let mut res: Vec<PackageStatus<String>> = Vec::new();
    let n = affected.len();
    let mut i: usize = 0;
    assert(statuses_view(res@) =~= Seq::empty());
    while i < n
        invariant
            n == affected@.len(),
            i <= n,
            statuses_view(res@) == spec_package_statuses(affected@.take(i as int)),
        decreases n - i,
    {
        let mut more = affected_statuses(&affected[i]);
        proof {
            lemma_statuses_view_append(res@, more@);
            assert(affected@.take(i + 1).drop_last() =~= affected@.take(i as int));
        }
        res.append(&mut more);
        i = i + 1;
    }
    assert(affected@.take(n as int) =~= affected@);
    res
}

/// The aliases that name a CVE (those starting with `CVE-`), in order.
pub open spec fn spec_cve_ids(aliases: Seq<String>) -> Seq<String>
    decreases aliases.len(),
{
    if aliases.len() == 0 {
        Seq::empty()
    } else if has_prefix(aliases.last()@, "CVE-"@) {
        spec_cve_ids(aliases.drop_last()).push(aliases.last())
    } else {
        spec_cve_ids(aliases.drop_last())
    }
}

/// The aliases of a record that name a CVE; none when it has no aliases.
pub open spec fn spec_record_cve_ids(osv: Record) -> Seq<String> {
    match osv.aliases {
        Some(a) => spec_cve_ids(a@),
        None => Seq::empty(),
    }
}

/// The CVE identifiers among a record's aliases, in order.
pub fn cve_ids(osv: &Record) -> (res: Vec<String>)
    ensures
        res@ == spec_record_cve_ids(*osv),
{
    let mut res: Vec<String> = Vec::new();
    if let Some(aliases) = &osv.aliases {
        let n = aliases.len();
        let mut i: usize = 0;
        while i < n
            invariant
                n == aliases@.len(),
                i <= n,
                res@ == spec_cve_ids(aliases@.take(i as int)),
            decreases n - i,
        {
            assert(aliases@.take(i + 1).drop_last() =~= aliases@.take(i as int));
            assert(aliases@.take(i + 1).last() == aliases@[i as int]);
            if starts_with(aliases[i].as_str(), "CVE-") {
                res.push(aliases[i].clone());
            }
            i = i + 1;
        }
        assert(aliases@.take(n as int) =~= aliases@);
    }
    res
}

/// The scores of the CVSS v3 severities, in order.
pub open spec fn spec_cvss3_scores(severities: Seq<SeverityScore>) -> Seq<String>
    decreases severities.len(),
{
    if severities.len() == 0 {
        Seq::empty()
    } else if severities.last().severity_type == SeverityKind::CVSSv3 {
        spec_cvss3_scores(severities.drop_last()).push(severities.last().score)
    } else {
        spec_cvss3_scores(severities.drop_last())
    }
}

/// The CVSS v3 scores of a record; none when it has no severities.
pub open spec fn spec_record_cvss3_scores(osv: Record) -> Seq<String> {
    match osv.severity {
        Some(s) => spec_cvss3_scores(s@),
        None => Seq::empty(),
    }
}

/// The score vectors of a record's CVSS v3 severities, which the loader
/// records as scores of each vulnerability.
pub fn cvss3_scores(osv: &Record) -> (res: Vec<String>)
    ensures
        res@ == spec_record_cvss3_scores(*osv),
{
    let mut res: Vec<String> = Vec::new();
    if let Some(severities) = &osv.severity {
        let n = severities.len();
        let mut i: usize = 0;
        while i < n
            invariant
                n == severities@.len(),
                i <= n,
                res@ == spec_cvss3_scores(severities@.take(i as int)),
            decreases n - i,
        {
            assert(severities@.take(i + 1).drop_last() =~= severities@.take(i as int));
            assert(severities@.take(i + 1).last() == severities@[i as int]);
            if severities[i].severity_type == SeverityKind::CVSSv3 {
                res.push(severities[i].score.clone());
            }
            i = i + 1;
        }
        assert(severities@.take(n as int) =~= severities@);
    }
    res
}

/// The URL prefixes of advisory databases whose issuer is known.
pub open spec fn well_known_prefixes() -> Seq<(Seq<char>, Seq<char>)> {
    seq![("https://rustsec.org/advisories/RUSTSEC"@, "Rust Security Advisory Database"@)]
}

/// A matcher of the URL prefixes of advisory databases whose issuer is known.
pub fn get_well_known_prefixes() -> (m: PrefixMatcher)
    ensures
        m@ == well_known_prefixes(),
{
    let mut matcher = PrefixMatcher::new();
    matcher.add(
        "https://rustsec.org/advisories/RUSTSEC".to_owned(),
        "Rust Security Advisory Database".to_owned(),
    );
    assert(matcher@ =~= well_known_prefixes());
    matcher
}

/// The URL of the first reference of type `Advisory`, if any.
pub open spec fn first_advisory_url(references: Seq<RecordReference>) -> Option<Seq<char>>
    decreases references.len(),
{
    if references.len() == 0 {
        None
    } else if references[0].reference_type == ReferenceKind::Advisory {
        Some(references[0].url@)
    } else {
        first_advisory_url(references.drop_first())
    }
}

/// The organisation that issued a record: the well-known issuer of the URL of
/// its first advisory reference. Later advisory references are not consulted.
pub open spec fn spec_detect_organization(osv: Record) -> Option<Seq<char>> {
    match osv.references {
        Some(refs) => match first_advisory_url(refs@) {
            Some(url) => first_match(well_known_prefixes(), url),
            None => None,
        },
        None => None,
    }
}

/// The organisation that issued a record, detected from its first advisory reference.
pub fn detect_organization(osv: &Record) -> (res: Option<String>)
    ensures
        res.deep_view() == spec_detect_organization(*osv),
{
    if let Some(references) = &osv.references {
        let n = references.len();
        let mut i: usize = 0;
        assert(references@.skip(0) =~= references@);
        while i < n
            invariant
                n == references@.len(),
                i <= n,
                osv.references == Some(*references),
                first_advisory_url(references@) == first_advisory_url(references@.skip(i as int)),
            decreases n - i,
        {
            assert(references@.skip(i as int)[0] == references@[i as int]);
            assert(references@.skip(i as int).drop_first() =~= references@.skip(i + 1));
            if references[i].reference_type == ReferenceKind::Advisory {
                assert(first_advisory_url(references@) == Some(references@[i as int].url@));
                let matcher = get_well_known_prefixes();
                let found = matcher.detect(references[i].url.as_str());
                return found;
            }
            i = i + 1;
        }
        assert(references@.skip(n as int) =~= Seq::<RecordReference>::empty());
    }
    None
}

/// What an advisory records about itself.
#[derive(Debug)]
pub struct AdvisoryInformation {
    pub title: Option<String>,
    pub issuer: Option<String>,
    pub published: Option<Timestamp>,
    pub modified: Option<Timestamp>,
    pub withdrawn: Option<Timestamp>,
}

/// What the link between an advisory and one of its vulnerabilities records.
#[derive(Debug)]
pub struct AdvisoryVulnerabilityInformation {
    pub title: Option<String>,
    pub summary: Option<String>,
    pub description: Option<String>,
    pub discovery_date: Option<Timestamp>,
    pub release_date: Option<Timestamp>,
    pub cwe: Option<String>,
}

/// What the loader records for one CVE of a record: the link, the CVSS v3
/// scores to parse and record, and the package statuses.
#[derive(Debug)]
pub struct VulnerabilityIngest {
    pub cve_id: String,
    pub information: AdvisoryVulnerabilityInformation,
    pub cvss3_scores: Vec<String>,
    pub statuses: Vec<PackageStatus<String>>,
}

/// Everything the loader records for one record, in the order it records it:
/// the advisory, its withdrawal time, then each CVE with its scores and statuses.
#[derive(Debug)]
pub struct AdvisoryIngest {
    pub identifier: String,
    pub information: AdvisoryInformation,
    pub withdrawn_at: Option<Timestamp>,
    pub vulnerabilities: Vec<VulnerabilityIngest>,
}

/// The issuer recorded for a record: the one given, else the detected one.
pub open spec fn spec_issuer(issuer: Option<String>, osv: Record) -> Option<Seq<char>> {
    match issuer {
        Some(i) => Some(i@),
        None => spec_detect_organization(osv),
    }
}

/// The link information recorded for every CVE of a record.
pub open spec fn spec_vulnerability_information(osv: Record) -> AdvisoryVulnerabilityInformation {
    AdvisoryVulnerabilityInformation {
        title: osv.summary,
        summary: osv.summary,
        description: osv.details,
        discovery_date: None,
        release_date: None,
        cwe: None,
    }
}

/// `plan` is what loading `osv` records, given the issuer named by the caller:
/// the record's identifier; its summary as title; the given issuer, else the
/// detected one; its times; then, for each CVE alias in order, the link with the
/// record's summary and details, the record's CVSS v3 scores and all its package statuses.
pub open spec fn is_plan_for(plan: AdvisoryIngest, issuer: Option<String>, osv: Record) -> bool {
    &&& plan.identifier == osv.id
    &&& plan.information.title == osv.summary
    &&& plan.information.issuer.deep_view() == spec_issuer(issuer, osv)
    &&& plan.information.published == osv.published
    &&& plan.information.modified == Some(osv.modified)
    &&& plan.information.withdrawn == osv.withdrawn
    &&& plan.withdrawn_at == osv.withdrawn
    &&& plan.vulnerabilities@.len() == spec_record_cve_ids(osv).len()
    &&& forall|i: int|
        0 <= i < plan.vulnerabilities@.len() ==> {
            let v = #[trigger] plan.vulnerabilities@[i];
            &&& v.cve_id == spec_record_cve_ids(osv)[i]
            &&& v.information == spec_vulnerability_information(osv)
            &&& v.cvss3_scores@ == spec_record_cvss3_scores(osv)
            &&& statuses_view(v.statuses@) == spec_package_statuses(osv.affected@)
        }
}

fn clone_text(o: &Option<String>) -> (r: Option<String>)
    ensures
        r == *o,
{
    match o {
        Some(s) => Some(s.clone()),
        None => None,
    }
}

/// What the loader records for an OSV record, given the issuer named by the
/// caller, if any.
pub fn plan_ingest(issuer: Option<String>, osv: &Record) -> (res: AdvisoryIngest)
    ensures
        is_plan_for(res, issuer, *osv),
{
    let detected = detect_organization(osv);
    let issuer = match issuer {
        Some(i) => Some(i),
        None => detected,
    };
    let information = AdvisoryInformation {
        title: clone_text(&osv.summary),
        issuer,
        published: osv.published,
        modified: Some(osv.modified),
        withdrawn: osv.withdrawn,
    };
    let ids = cve_ids(osv);
    let n = ids.len();
    let mut vulnerabilities: Vec<VulnerabilityIngest> = Vec::new();
    let mut i: usize = 0;
    while i < n
        invariant
            n == ids@.len(),
            ids@ == spec_record_cve_ids(*osv),
            i <= n,
            vulnerabilities@.len() == i,
            forall|k: int|
                0 <= k < i ==> {
                    let v = #[trigger] vulnerabilities@[k];
                    &&& v.cve_id == ids@[k]
                    &&& v.information == spec_vulnerability_information(*osv)
                    &&& v.cvss3_scores@ == spec_record_cvss3_scores(*osv)
                    &&& statuses_view(v.statuses@) == spec_package_statuses(osv.affected@)
                },
        decreases n - i,
    {
        let information = AdvisoryVulnerabilityInformation {
            title: clone_text(&osv.summary),
            summary: clone_text(&osv.summary),
            description: clone_text(&osv.details),
            discovery_date: None,
            release_date: None,
            cwe: None,
        };
        vulnerabilities.push(
            VulnerabilityIngest {
                cve_id: ids[i].clone(),
                information,
                cvss3_scores: cvss3_scores(osv),
                statuses: package_statuses(osv.affected.as_slice()),
            },
        );
        i = i + 1;
    }
    AdvisoryIngest {
        identifier: osv.id.clone(),
        information,
        withdrawn_at: osv.withdrawn,
        vulnerabilities,
    }
}

/// Loads OSV records into the graph it was made with.
pub struct OsvLoader<'g, G> {
    graph: &'g G,
}

impl<'g, G> OsvLoader<'g, G> {
    /// The graph this loader records into.
    pub closed spec fn spec_graph(&self) -> &'g G {
        self.graph
    }

    /// A loader that records into `graph`.
    pub fn new(graph: &'g G) -> (loader: Self)
        ensures
            loader.spec_graph() == graph,
    {
        OsvLoader { graph }
    }

    /// The graph this loader records into.
    pub fn graph(&self) -> (graph: &'g G)
        ensures
            graph == self.spec_graph(),
    {
        self.graph
    }
}

/// A URL is attributed to the RustSec advisory database exactly when it lies
/// under the RustSec advisory prefix; no other URL is attributed to anyone.
pub proof fn lemma_well_known_detection(url: Seq<char>)
    ensures
        first_match(well_known_prefixes(), url) == if has_prefix(url, "https://rustsec.org/advisories/RUSTSEC"@) {
            Some("Rust Security Advisory Database"@)
        } else {
            None::<Seq<char>>
        },
{
    let m = well_known_prefixes();
    assert(m.drop_first() =~= Seq::<(Seq<char>, Seq<char>)>::empty());
    assert(first_match(m.drop_first(), url) is None);
}

/// The CVE identifiers of a list of aliases are exactly its aliases that start
/// with `CVE-`.
pub proof fn lemma_cve_ids_are_cve_aliases(aliases: Seq<String>)
    ensures
        forall|x: String| #[trigger] spec_cve_ids(aliases).contains(x)
            <==> aliases.contains(x) && has_prefix(x@, "CVE-"@),
    decreases aliases.len(),
{
    if aliases.len() > 0 {
        let rest = aliases.drop_last();
        lemma_cve_ids_are_cve_aliases(rest);
        assert(aliases =~= rest.push(aliases.last()));
        assert forall|x: String| #[trigger] spec_cve_ids(aliases).contains(x)
            <==> aliases.contains(x) && has_prefix(x@, "CVE-"@) by {
            if aliases.contains(x) && has_prefix(x@, "CVE-"@) {
                let k = choose|k: int| 0 <= k < aliases.len() && aliases[k] == x;
                if k < aliases.len() - 1 {
                    assert(rest[k] == x);
                    assert(rest.contains(x));
                    assert(spec_cve_ids(rest).contains(x));
                    let j = choose|j: int| 0 <= j < spec_cve_ids(rest).len() && spec_cve_ids(rest)[j] == x;
                    if has_prefix(aliases.last()@, "CVE-"@) {
                        assert(spec_cve_ids(aliases) == spec_cve_ids(rest).push(aliases.last()));
                    } else {
                        assert(spec_cve_ids(aliases) == spec_cve_ids(rest));
                    }
                    assert(spec_cve_ids(aliases)[j] == x);
                } else {
                    assert(spec_cve_ids(aliases) == spec_cve_ids(rest).push(aliases.last()));
                    assert(spec_cve_ids(aliases)[spec_cve_ids(rest).len() as int] == x);
                }
            }
            if spec_cve_ids(aliases).contains(x) {
                let j = choose|j: int| 0 <= j < spec_cve_ids(aliases).len() && spec_cve_ids(aliases)[j] == x;
                if has_prefix(aliases.last()@, "CVE-"@) && j == spec_cve_ids(rest).len() {
                    assert(aliases[aliases.len() - 1] == x);
                } else {
                    assert(spec_cve_ids(rest)[j] == x);
                    assert(spec_cve_ids(rest).contains(x));
                    let k = choose|k: int| 0 <= k < rest.len() && rest[k] == x;
                    assert(aliases[k] == x);
                }
            }
        }
    }
}

/// A range records a `fixed` status exactly when it has a fixed event, for
/// the first fixed version, as its last status; it records an `affected`
/// status exactly when it has an introduced or a fixed event, as its first.
pub proof fn lemma_range_statuses_shape(purl: Seq<char>, events: Seq<RangeEvent>)
    ensures
        ({
            let s = spec_range_statuses(purl, events);
            let start = first_introduced(events);
            let end = first_fixed(events);
            &&& s.len() == (if start is Some || end is Some { 1int } else { 0int }) + (if end is Some { 1int } else { 0int })
            &&& forall|i: int| 0 <= i < s.len() ==> (#[trigger] s[i]).purl == purl && s[i].info.scheme == semver_scheme()
            &&& (start is Some || end is Some) ==> s[0].status == Status::Affected
            &&& end matches Some(v) ==> s.last() == (PackageStatus {
                purl,
                status: Status::Fixed,
                info: VersionInfo { scheme: semver_scheme(), spec: VersionSpec::Exact(v) },
            })
        }),
{
}

/// Why an OSV record could not be loaded.
#[derive(Debug)]
pub enum LoadError {
    /// The text is not an OSV record in JSON.
    Json(serde_json::Error),
}

/// What loading the OSV record in the JSON text `json` records, given the
/// issuer named by the caller: the plan of the parsed record, or the parse error.
pub fn plan_ingest_json(issuer: Option<String>, json: &[u8]) -> (res: Result<AdvisoryIngest, LoadError>)
    ensures
        parsed_osv(json@) is None ==> res is Err,
        parsed_osv(json@) matches Some(osv) ==> (res matches Ok(plan) && is_plan_for(plan, issuer, osv)),
{
    match parse_osv(json) {
        Ok(osv) => Ok(plan_ingest(issuer, &osv)),
        Err(e) => Err(LoadError::Json(e)),
    }
}

proof fn lemma_first_introduced_at(events: Seq<RangeEvent>, i: int, a: String)
    requires
        0 <= i < events.len(),
        events[i] == RangeEvent::Introduced(a),
        forall|k: int| 0 <= k < i ==> !(#[trigger] events[k] is Introduced),
    ensures
        first_introduced(events) == Some(a@),
    decreases i,
{
    if i > 0 {
        assert(!(events[0] is Introduced));
        assert forall|k: int| 0 <= k < i - 1 implies !(#[trigger] events.drop_first()[k] is Introduced) by {
            assert(events.drop_first()[k] == events[k + 1]);
        }
        lemma_first_introduced_at(events.drop_first(), i - 1, a);
    }
}

proof fn lemma_no_introduced(events: Seq<RangeEvent>)
    requires
        forall|k: int| 0 <= k < events.len() ==> !(#[trigger] events[k] is Introduced),
    ensures
        first_introduced(events) is None,
    decreases events.len(),
{
    if events.len() > 0 {
        assert(!(events[0] is Introduced));
        assert forall|k: int| 0 <= k < events.len() - 1 implies !(#[trigger] events.drop_first()[k] is Introduced) by {
            assert(events.drop_first()[k] == events[k + 1]);
        }
        lemma_no_introduced(events.drop_first());
    }
}

proof fn lemma_first_fixed_at(events: Seq<RangeEvent>, i: int, b: String)
    requires
        0 <= i < events.len(),
        events[i] == RangeEvent::Fixed(b),
        forall|k: int| 0 <= k < i ==> !(#[trigger] events[k] is Fixed),
    ensures
        first_fixed(events) == Some(b@),
    decreases i,
{
    if i > 0 {
        assert(!(events[0] is Fixed));
        assert forall|k: int| 0 <= k < i - 1 implies !(#[trigger] events.drop_first()[k] is Fixed) by {
            assert(events.drop_first()[k] == events[k + 1]);
        }
        lemma_first_fixed_at(events.drop_first(), i - 1, b);
    }
}

proof fn lemma_no_fixed(events: Seq<RangeEvent>)
    requires
        forall|k: int| 0 <= k < events.len() ==> !(#[trigger] events[k] is Fixed),
    ensures
        first_fixed(events) is None,
    decreases events.len(),
{
    if events.len() > 0 {
        assert(!(events[0] is Fixed));
        assert forall|k: int| 0 <= k < events.len() - 1 implies !(#[trigger] events.drop_first()[k] is Fixed) by {
            assert(events.drop_first()[k] == events[k + 1]);
        }
        lemma_no_fixed(events.drop_first());
    }
}

/// `v` is the version of the first event of its kind in `events`: at some
/// index the event is `ev`, and no earlier event has the kind of `ev`.
pub open spec fn is_first_of_kind(events: Seq<RangeEvent>, ev: RangeEvent) -> bool {
    exists|i: int|
        0 <= i < events.len() && events[i] == ev && forall|k: int|
            0 <= k < i ==> !(#[trigger] events[k] is Introduced && ev is Introduced) && !(events[k] is Fixed
                && ev is Fixed)
}

/// The statuses of one range, by where its events stand: an `affected` range
/// from the first introduced version, inclusive, up to the first fixed version,
/// exclusive (either side unbounded when no such event exists, nothing when
/// neither exists), then the first fixed version as `fixed`. Later introduced
/// or fixed events, and events of other kinds, change nothing.
pub proof fn lemma_range_statuses_bounds(
    purl: Seq<char>,
    events: Seq<RangeEvent>,
    start: Option<String>,
    end: Option<String>,
)
    requires
        start matches Some(a) ==> is_first_of_kind(events, RangeEvent::Introduced(a)),
        start is None ==> forall|k: int| 0 <= k < events.len() ==> !(#[trigger] events[k] is Introduced),
        end matches Some(b) ==> is_first_of_kind(events, RangeEvent::Fixed(b)),
        end is None ==> forall|k: int| 0 <= k < events.len() ==> !(#[trigger] events[k] is Fixed),
    ensures
        ({
            let affected = |from: Version<Seq<char>>, to: Version<Seq<char>>|
                PackageStatus {
                    purl,
                    status: Status::Affected,
                    info: VersionInfo { scheme: "semver"@, spec: VersionSpec::Range(from, to) },
                };
            let fixed = |v: Seq<char>|
                PackageStatus {
                    purl,
                    status: Status::Fixed,
                    info: VersionInfo { scheme: "semver"@, spec: VersionSpec::Exact(v) },
                };
            spec_range_statuses(purl, events) == match (start, end) {
                (Some(a), Some(b)) => seq![affected(Version::Inclusive(a@), Version::Exclusive(b@)), fixed(b@)],
                (Some(a), None) => seq![affected(Version::Inclusive(a@), Version::Unbounded)],
                (None, Some(b)) => seq![affected(Version::Unbounded, Version::Exclusive(b@)), fixed(b@)],
                (None, None) => Seq::<PackageStatus<Seq<char>>>::empty(),
            }
        }),
{
    match start {
        Some(a) => {
            let i = choose|i: int|
                0 <= i < events.len() && events[i] == RangeEvent::Introduced(a) && forall|k: int|
                    0 <= k < i ==> !(#[trigger] events[k] is Introduced && RangeEvent::Introduced(a) is Introduced)
                        && !(events[k] is Fixed && RangeEvent::Introduced(a) is Fixed);
            assert forall|k: int| 0 <= k < i implies !(#[trigger] events[k] is Introduced) by {
                assert(!(events[k] is Introduced && RangeEvent::Introduced(a) is Introduced));
            }
            lemma_first_introduced_at(events, i, a);
        },
        None => lemma_no_introduced(events),
    }
    match end {
        Some(b) => {
            let j = choose|j: int|
                0 <= j < events.len() && events[j] == RangeEvent::Fixed(b) && forall|k: int|
                    0 <= k < j ==> !(#[trigger] events[k] is Introduced && RangeEvent::Fixed(b) is Introduced)
                        && !(events[k] is Fixed && RangeEvent::Fixed(b) is Fixed);
            assert forall|k: int| 0 <= k < j implies !(#[trigger] events[k] is Fixed) by {
                assert(!(events[k] is Fixed && RangeEvent::Fixed(b) is Fixed));
            }
            lemma_first_fixed_at(events, j, b);
        },
        None => lemma_no_fixed(events),
    }
    assert(semver_scheme() == "semver"@);
    let s = spec_range_statuses(purl, events);
    match (start, end) {
        (Some(a), Some(b)) => {
            assert(s =~= seq![
                PackageStatus { purl, status: Status::Affected, info: VersionInfo { scheme: "semver"@, spec: VersionSpec::Range(Version::Inclusive(a@), Version::Exclusive(b@)) } },
                PackageStatus { purl, status: Status::Fixed, info: VersionInfo { scheme: "semver"@, spec: VersionSpec::Exact(b@) } },
            ]);
        },
        (Some(a), None) => {
            assert(s =~= seq![
                PackageStatus { purl, status: Status::Affected, info: VersionInfo { scheme: "semver"@, spec: VersionSpec::Range(Version::Inclusive(a@), Version::Unbounded) } },
            ]);
        },
        (None, Some(b)) => {
            assert(s =~= seq![
                PackageStatus { purl, status: Status::Affected, info: VersionInfo { scheme: "semver"@, spec: VersionSpec::Range(Version::Unbounded, Version::Exclusive(b@)) } },
                PackageStatus { purl, status: Status::Fixed, info: VersionInfo { scheme: "semver"@, spec: VersionSpec::Exact(b@) } },
            ]);
        },
        (None, None) => {
            assert(s =~= Seq::<PackageStatus<Seq<char>>>::empty());
        },
    }
}

} // verus!
