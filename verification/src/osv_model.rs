//! The parts of an OSV vulnerability record that advisory ingestion reads,
//! and the version assertions it derives from them.

use vstd::prelude::*;

verus! {

/// A point in time: seconds since the Unix epoch and the nanoseconds within that second.
#[derive(Clone, Copy, Debug, PartialEq, Eq)]
pub struct Timestamp {
    pub secs: i64,
    pub nanos: u32,
}

/// One event of an affected range, in the order the record lists them.
#[derive(Debug, PartialEq, Eq)]
pub enum RangeEvent {
    Introduced(String),
    Fixed(String),
    LastAffected(String),
    Limit(String),
    /// An event of a kind this model does not know.
    Unrecognised,
}

/// A range of affected versions, described by its events.
#[derive(Debug)]
pub struct AffectedRange {
    pub events: Vec<RangeEvent>,
}

/// The affected package: its name within its ecosystem, and its package URL
/// as the record writes it, if the record gives one.
#[derive(Debug)]
pub struct AffectedPackage {
    pub name: String,
    pub purl: Option<String>,
}

/// One entry of the record's `affected` list.
#[derive(Debug)]
pub struct AffectedEntry {
    pub package: Option<AffectedPackage>,
    pub ranges: Option<Vec<AffectedRange>>,
}

/// How a severity score is written.
#[derive(Clone, Copy, Debug, PartialEq, Eq, Structural)]
pub enum SeverityKind {
    CVSSv2,
    CVSSv3,
    CVSSv4,
    Unspecified,
    /// A severity kind this model does not know.
    Unrecognised,
}

/// A severity entry: its kind and its score vector.
#[derive(Debug)]
pub struct SeverityScore {
    pub severity_type: SeverityKind,
    pub score: String,
}

/// What a reference points at.
#[derive(Clone, Copy, Debug, PartialEq, Eq, Structural)]
pub enum ReferenceKind {
    Advisory,
    Article,
    Detection,
    Discussion,
    Evidence,
    Fix,
    Git,
    Introduced,
    Package,
    Report,
    Undefined,
    Web,
    /// A reference kind this model does not know.
    Unrecognised,
}

/// A reference of the record.
#[derive(Debug)]
pub struct RecordReference {
    pub reference_type: ReferenceKind,
    pub url: String,
}

/// An OSV vulnerability record, as far as ingestion reads it.
#[derive(Debug)]
pub struct Record {
    pub id: String,
    pub published: Option<Timestamp>,
    pub modified: Timestamp,
    pub withdrawn: Option<Timestamp>,
    pub aliases: Option<Vec<String>>,
    pub summary: Option<String>,
    pub details: Option<String>,
    pub affected: Vec<AffectedEntry>,
    pub references: Option<Vec<RecordReference>>,
    pub severity: Option<Vec<SeverityScore>>,
}

/// A bound of a version range. `S` is `String` in executable values and
/// `Seq<char>` in their views.
#[derive(Debug, PartialEq, Eq)]
pub enum Version<S> {
    Inclusive(S),
    Exclusive(S),
    Unbounded,
}

/// Either one exact version or a range between two bounds.
#[derive(Debug, PartialEq, Eq)]
pub enum VersionSpec<S> {
    Exact(S),
    Range(Version<S>, Version<S>),
}

/// A version specification together with its version scheme.
#[derive(Debug, PartialEq, Eq)]
pub struct VersionInfo<S> {
    pub scheme: S,
    pub spec: VersionSpec<S>,
}

/// Whether a package version is affected by, or fixed for, a vulnerability.
#[derive(Clone, Copy, Debug, PartialEq, Eq, Structural)]
pub enum Status {
    Affected,
    Fixed,
}

impl Status {
    /// The status name recorded for the package.
    pub fn label(&self) -> (s: &'static str)
        ensures
            *self == Status::Affected ==> s@ == "affected"@,
            *self == Status::Fixed ==> s@ == "fixed"@,
    {
        match self {
            Status::Affected => "affected",
            Status::Fixed => "fixed",
        }
    }
}

/// One package status to record for a vulnerability.
#[derive(Debug, PartialEq, Eq)]
pub struct PackageStatus<S> {
    pub purl: S,
    pub status: Status,
    pub info: VersionInfo<S>,
}

impl View for Version<String> {
    type V = Version<Seq<char>>;

    open spec fn view(&self) -> Version<Seq<char>> {
        match self {
            Version::Inclusive(v) => Version::Inclusive(v@),
            Version::Exclusive(v) => Version::Exclusive(v@),
            Version::Unbounded => Version::Unbounded,
        }
    }
}

impl View for VersionSpec<String> {
    type V = VersionSpec<Seq<char>>;

    open spec fn view(&self) -> VersionSpec<Seq<char>> {
        match self {
            VersionSpec::Exact(v) => VersionSpec::Exact(v@),
            VersionSpec::Range(from, to) => VersionSpec::Range(from@, to@),
        }
    }
}

impl View for VersionInfo<String> {
    type V = VersionInfo<Seq<char>>;

    open spec fn view(&self) -> VersionInfo<Seq<char>> {
        VersionInfo { scheme: self.scheme@, spec: self.spec@ }
    }
}

impl View for PackageStatus<String> {
    type V = PackageStatus<Seq<char>>;

    open spec fn view(&self) -> PackageStatus<Seq<char>> {
        PackageStatus { purl: self.purl@, status: self.status, info: self.info@ }
    }
}

/// The views of a list of package statuses.
pub open spec fn statuses_view(v: Seq<PackageStatus<String>>) -> Seq<PackageStatus<Seq<char>>> {
    v.map_values(|p: PackageStatus<String>| p@)
}

} // verus!
