//! The catalogue of schema migrations: plain migrations and migrations that
//! also rewrite stored documents, kept in the order they must run.

use vstd::prelude::*;

verus! {

/// A migration: a plain schema migration, or one that also processes data.
#[derive(Debug, PartialEq, Eq)]
pub enum Migration<N, D> {
    Normal(N),
    Data(D),
}

/// An ordered list of migrations.
pub struct Migrations<N, D> {
    all: Vec<Migration<N, D>>,
}

impl<N, D> View for Migrations<N, D> {
    type V = Seq<Migration<N, D>>;

    closed spec fn view(&self) -> Seq<Migration<N, D>> {
        self.all@
    }
}

impl<N, D> Default for Migrations<N, D> {
    /// An empty list.
    fn default() -> (m: Self)
        ensures
            m@ == Seq::<Migration<N, D>>::empty(),
    {
        Migrations { all: Vec::new() }
    }
}

/// The data migrations of a list, in order.
pub open spec fn spec_data_only<N, D>(all: Seq<Migration<N, D>>) -> Seq<D>
    decreases all.len(),
{
    if all.len() == 0 {
        Seq::empty()
    } else {
        match all.last() {
            Migration::Data(d) => spec_data_only(all.drop_last()).push(d),
            Migration::Normal(_) => spec_data_only(all.drop_last()),
        }
    }
}

impl<N, D> Migrations<N, D> {
    /// An empty list.
    pub fn new() -> (m: Self)
        ensures
            m@ == Seq::<Migration<N, D>>::empty(),
    {
        Self::default()
    }

    /// The list with a plain migration appended.
    pub fn normal(self, migration: N) -> (m: Self)
        ensures
            m@ == self@.push(Migration::Normal(migration)),
    {
        let mut all = self.all;
        all.push(Migration::Normal(migration));
        Migrations { all }
    }

    /// The list with a data migration appended.
    pub fn data(self, migration: D) -> (m: Self)
        ensures
            m@ == self@.push(Migration::Data(migration)),
    {
        let mut all = self.all;
        all.push(Migration::Data(migration));
        Migrations { all }
    }

    /// The migrations, in order.
    pub fn into_vec(self) -> (v: Vec<Migration<N, D>>)
        ensures
            v@ == self@,
    {
        self.all
    }

    /// The data migrations of the list, in order; plain ones are left out.
    pub fn data_migrations(self) -> (v: Vec<D>)
        ensures
            v@ == spec_data_only(self@),
    {
        let ghost orig = self@;
        let mut rest = self.all;
        let mut out: Vec<D> = Vec::new();
        let n = rest.len();
        let mut i: usize = 0;
        while i < n
            invariant
                n == orig.len(),
                i <= n,
                rest@ == orig.skip(i as int),
                out@ == spec_data_only(orig.take(i as int)),
            decreases n - i,
        {
            assert(orig.take(i + 1).drop_last() =~= orig.take(i as int));
            assert(orig.take(i + 1).last() == orig[i as int]);
            assert(rest@[0] == orig[i as int]);
            let m = rest.remove(0);
            assert(rest@ =~= orig.skip(i + 1));
            match m {
                Migration::Data(d) => out.push(d),
                Migration::Normal(_) => {},
            }
            i = i + 1;
        }
        assert(orig.take(n as int) =~= orig);
        out
    }

    /// Every migration as a plain schema migration, in order: plain ones as
    /// they are, data ones through `wrap`.
    pub fn schema_migrations<F: Fn(D) -> N>(self, wrap: F) -> (v: Vec<N>)
        requires
            forall|d: D| #[trigger] wrap.requires((d,)),
        ensures
            v@.len() == self@.len(),
            forall|i: int|
                0 <= i < self@.len() ==> match #[trigger] self@[i] {
                    Migration::Normal(n) => v@[i] == n,
                    Migration::Data(d) => wrap.ensures((d,), v@[i]),
                },
    {
        let ghost orig = self@;
        let mut rest = self.all;
        let mut out: Vec<N> = Vec::new();
        let n = rest.len();
        let mut i: usize = 0;
        while i < n
            invariant
                n == orig.len(),
                i <= n,
                rest@ == orig.skip(i as int),
                out@.len() == i,
                forall|d: D| #[trigger] wrap.requires((d,)),
                forall|k: int|
                    0 <= k < i ==> match #[trigger] orig[k] {
                        Migration::Normal(m) => out@[k] == m,
                        Migration::Data(d) => wrap.ensures((d,), out@[k]),
                    },
            decreases n - i,
        {
            assert(rest@[0] == orig[i as int]);
            let m = rest.remove(0);
            assert(rest@ =~= orig.skip(i + 1));
            match m {
                Migration::Normal(x) => out.push(x),
                Migration::Data(d) => {
                    let x = wrap(d);
                    out.push(x);
                },
            }
            i = i + 1;
        }
        out
    }
}

/// Appending a plain migration leaves the data migrations as they were;
/// appending a data migration adds it after them.
pub proof fn lemma_data_only_after_append<N, D>(all: Seq<Migration<N, D>>, n: N, d: D)
    ensures
        spec_data_only(all.push(Migration::Normal(n))) == spec_data_only(all),
        spec_data_only(all.push(Migration::Data(d))) == spec_data_only(all).push(d),
{
    assert(all.push(Migration::<N, D>::Normal(n)).drop_last() =~= all);
    assert(all.push(Migration::<N, D>::Data(d)).drop_last() =~= all);
}

/// The views of a list of migrations named by strings.
pub open spec fn names_view(all: Seq<Migration<String, String>>) -> Seq<Migration<Seq<char>, Seq<char>>> {
    all.map_values(
        |m: Migration<String, String>|
            match m {
                Migration::Normal(n) => Migration::Normal(n@),
                Migration::Data(d) => Migration::Data(d@),
            },
    )
}

/// The names of the plain migrations of the knowledge base, in the order they run.
pub open spec fn plain_migration_names() -> Seq<Seq<char>> {
    seq![
        "m0000010_init"@,
        "m0000020_add_sbom_group"@,
        "m0000030_perf_adv_vuln"@,
        "m0000040_create_license_export"@,
        "m0000050_perf_adv_vuln2"@,
        "m0000060_perf_adv_vuln3"@,
        "m0000070_perf_adv_vuln4"@,
        "m0000080_get_purl_refactor"@,
        "m0000090_release_perf"@,
        "m0000100_perf_adv_vuln5"@,
        "m0000970_alter_importer_add_heartbeat"@,
        "m0000980_get_purl_fix"@,
        "m0000990_sbom_add_suppliers"@,
        "m0001000_sbom_non_null_suppliers"@,
        "m0001010_alter_mavenver_cmp"@,
        "m0001020_alter_pythonver_cmp"@,
        "m0001030_perf_adv_gin_index"@,
        "m0001040_alter_pythonver_cmp"@,
        "m0001050_foreign_key_cascade"@,
        "m0001060_advisory_vulnerability_indexes"@,
        "m0001070_vulnerability_scores"@,
        "m0001100_remove_get_purl"@,
        "m0001110_sbom_node_checksum_indexes"@,
        "m0001120_sbom_external_node_indexes"@,
        "m0001130_gover_cmp"@
    ]
}

/// The name of the data migration of the knowledge base.
pub open spec fn data_migration_name() -> Seq<char> {
    "m0002000_example_data_migration"@
}

/// The migrations of the knowledge base, by name, in the order they run:
/// the plain ones, then the data migration.
pub open spec fn catalogue() -> Seq<Migration<Seq<char>, Seq<char>>> {
    plain_migration_names().map_values(|n: Seq<char>| Migration::<Seq<char>, Seq<char>>::Normal(n)).push(
        Migration::Data(data_migration_name()),
    )
}

/// A list of plain migrations holds no data migration.
proof fn lemma_no_data<N, D>(all: Seq<Migration<N, D>>)
    requires
        forall|i: int| 0 <= i < all.len() ==> #[trigger] all[i] is Normal,
    ensures
        spec_data_only(all) == Seq::<D>::empty(),
    decreases all.len(),
{
    if all.len() > 0 {
        assert(all.last() is Normal);
        lemma_no_data(all.drop_last());
    }
}

/// Runs the migrations of the knowledge base.
pub struct Migrator;

impl Migrator {
    /// The migrations of the knowledge base, by name, in the order they run.
    pub fn migrations() -> (m: Migrations<String, String>)
        ensures
            names_view(m@) == catalogue(),
    {
        let m = Migrations::new()
            .normal("m0000010_init".to_owned())
            .normal("m0000020_add_sbom_group".to_owned())
            .normal("m0000030_perf_adv_vuln".to_owned())
            .normal("m0000040_create_license_export".to_owned())
            .normal("m0000050_perf_adv_vuln2".to_owned())
            .normal("m0000060_perf_adv_vuln3".to_owned())
            .normal("m0000070_perf_adv_vuln4".to_owned())
            .normal("m0000080_get_purl_refactor".to_owned())
            .normal("m0000090_release_perf".to_owned())
            .normal("m0000100_perf_adv_vuln5".to_owned())
            .normal("m0000970_alter_importer_add_heartbeat".to_owned())
            .normal("m0000980_get_purl_fix".to_owned())
            .normal("m0000990_sbom_add_suppliers".to_owned())
            .normal("m0001000_sbom_non_null_suppliers".to_owned())
            .normal("m0001010_alter_mavenver_cmp".to_owned())
            .normal("m0001020_alter_pythonver_cmp".to_owned())
            .normal("m0001030_perf_adv_gin_index".to_owned())
            .normal("m0001040_alter_pythonver_cmp".to_owned())
            .normal("m0001050_foreign_key_cascade".to_owned())
            .normal("m0001060_advisory_vulnerability_indexes".to_owned())
            .normal("m0001070_vulnerability_scores".to_owned())
            .normal("m0001100_remove_get_purl".to_owned())
            .normal("m0001110_sbom_node_checksum_indexes".to_owned())
            .normal("m0001120_sbom_external_node_indexes".to_owned())
            .normal("m0001130_gover_cmp".to_owned())
            .data("m0002000_example_data_migration".to_owned());
        assert(names_view(m@) =~= catalogue());
        m
    }

    /// The names of the data migrations, in the order they run.
    pub fn data_migrations() -> (names: Vec<String>)
        ensures
            names.deep_view() == seq![data_migration_name()],
    {
        let all = Self::migrations();
        let ghost whole = all@;
        let names = all.data_migrations();
        proof {
            assert(plain_migration_names().len() == 25);
            assert(names_view(whole).len() == whole.len());
            let plain = whole.drop_last();
            assert forall|i: int| 0 <= i < plain.len() implies #[trigger] plain[i] is Normal by {
                assert(names_view(whole)[i] == catalogue()[i]);
            }
            lemma_no_data(plain);
            assert(names_view(whole)[25] == catalogue()[25]);
            assert(whole =~= plain.push(whole.last()));
        }
        assert(names.deep_view() =~= seq![data_migration_name()]);
        names
    }
}

} // verus!
