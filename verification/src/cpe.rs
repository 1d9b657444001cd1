//! Looking up and ingesting CPE names: how each component of a CPE becomes a
//! condition on its column, and what ingestion does with a lookup's answer.

use vstd::prelude::*;

verus! {

/// The `part` of a CPE name.
#[derive(Clone, Copy, Debug, PartialEq, Eq, Structural)]
pub enum CpeType {
    Any,
    Hardware,
    OperatingSystem,
    Application,
    Empty,
}

/// A component of a CPE name other than its part.
#[derive(Debug, PartialEq, Eq)]
pub enum Component {
    Any,
    NotApplicable,
    Value(String),
}

/// A CPE 2.2 name.
#[derive(Debug)]
pub struct Cpe {
    pub part: CpeType,
    pub vendor: Component,
    pub product: Component,
    pub version: Component,
    pub update: Component,
    pub edition: Component,
}

/// A condition on one column of the stored CPE rows. `S` is `String` in
/// executable values and `Seq<char>` in their views.
#[derive(Debug, PartialEq, Eq)]
pub enum ColumnFilter<S> {
    Equals(S),
    IsNull,
}

/// The conditions a stored CPE must meet to be the one looked up,
/// one per column, in the order the lookup applies them.
#[derive(Debug, PartialEq, Eq)]
pub struct CpeFilter<S> {
    pub part: ColumnFilter<S>,
    pub vendor: ColumnFilter<S>,
    pub product: ColumnFilter<S>,
    pub version: ColumnFilter<S>,
    pub update: ColumnFilter<S>,
    pub edition: ColumnFilter<S>,
}

impl View for ColumnFilter<String> {
    type V = ColumnFilter<Seq<char>>;

    open spec fn view(&self) -> ColumnFilter<Seq<char>> {
        match self {
            ColumnFilter::Equals(v) => ColumnFilter::Equals(v@),
            ColumnFilter::IsNull => ColumnFilter::IsNull,
        }
    }
}

impl View for CpeFilter<String> {
    type V = CpeFilter<Seq<char>>;

    open spec fn view(&self) -> CpeFilter<Seq<char>> {
        CpeFilter {
            part: self.part@,
            vendor: self.vendor@,
            product: self.product@,
            version: self.version@,
            update: self.update@,
            edition: self.edition@,
        }
    }
}

/// The stored form of a part: `*` for any, one letter for hardware,
/// operating system and application, and no value for an empty part.
pub open spec fn spec_part_filter(part: CpeType) -> ColumnFilter<Seq<char>> {
    match part {
        CpeType::Any => ColumnFilter::Equals("*"@),
        CpeType::Hardware => ColumnFilter::Equals("h"@),
        CpeType::OperatingSystem => ColumnFilter::Equals("o"@),
        CpeType::Application => ColumnFilter::Equals("a"@),
        CpeType::Empty => ColumnFilter::IsNull,
    }
}

/// The stored form of a component: `*` for any, no value for not
/// applicable, and the value itself otherwise.
pub open spec fn spec_component_filter(c: Component) -> ColumnFilter<Seq<char>> {
    match c {
        Component::Any => ColumnFilter::Equals("*"@),
        Component::NotApplicable => ColumnFilter::IsNull,
        Component::Value(v) => ColumnFilter::Equals(v@),
    }
}

/// The conditions that find a stored CPE equal to `cpe`.
pub open spec fn spec_cpe_filter(cpe: Cpe) -> CpeFilter<Seq<char>> {
    CpeFilter {
        part: spec_part_filter(cpe.part),
        vendor: spec_component_filter(cpe.vendor),
        product: spec_component_filter(cpe.product),
        version: spec_component_filter(cpe.version),
        update: spec_component_filter(cpe.update),
        edition: spec_component_filter(cpe.edition),
    }
}

/// The condition on the `part` column for a CPE's part.
pub fn part_filter(part: CpeType) -> (f: ColumnFilter<String>)
    ensures
        f@ == spec_part_filter(part),
{
    match part {
        CpeType::Any => ColumnFilter::Equals("*".to_owned()),
        CpeType::Hardware => ColumnFilter::Equals("h".to_owned()),
        CpeType::OperatingSystem => ColumnFilter::Equals("o".to_owned()),
        CpeType::Application => ColumnFilter::Equals("a".to_owned()),
        CpeType::Empty => ColumnFilter::IsNull,
    }
}

/// The condition on a component's column.
pub fn component_filter(c: &Component) -> (f: ColumnFilter<String>)
    ensures
        f@ == spec_component_filter(*c),
{
    match c {
        Component::Any => ColumnFilter::Equals("*".to_owned()),
        Component::NotApplicable => ColumnFilter::IsNull,
        Component::Value(v) => ColumnFilter::Equals(v.clone()),
    }
}

/// The conditions of the lookup of a CPE.
pub fn cpe_filter(cpe: &Cpe) -> (f: CpeFilter<String>)
    ensures
        f@ == spec_cpe_filter(*cpe),
{
    CpeFilter {
        part: part_filter(cpe.part),
        vendor: component_filter(&cpe.vendor),
        product: component_filter(&cpe.product),
        version: component_filter(&cpe.version),
        update: component_filter(&cpe.update),
        edition: component_filter(&cpe.edition),
    }
}

/// What ingesting a CPE does once its lookup has answered.
#[derive(Debug, PartialEq, Eq)]
pub enum CpeIngestStep<T> {
    /// The CPE is stored already: this row is the answer, nothing is inserted.
    Existing(T),
    /// The CPE is not stored: insert it and answer with the inserted row.
    Insert,
}

/// Ingesting a CPE answers with the stored row when the lookup found one,
/// and inserts the CPE otherwise.
pub fn ingest_step<T>(found: Option<T>) -> (step: CpeIngestStep<T>)
    ensures
        match found {
            Some(row) => step == CpeIngestStep::Existing(row),
            None => step == CpeIngestStep::<T>::Insert,
        },
{
    match found {
        Some(row) => CpeIngestStep::Existing(row),
        None => CpeIngestStep::Insert,
    }
}

} // verus!
