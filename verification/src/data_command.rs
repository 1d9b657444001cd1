//! The `data` command: listing the data migrations, or running a chosen set
//! of them against a database in a chosen direction.

use vstd::prelude::*;
use crate::migration::{data_migration_name, Migrator};

verus! {

/// The direction a migration runs in.
#[derive(Clone, Copy, Debug, PartialEq, Eq, Structural)]
pub enum Direction {
    Up,
    Down,
}

/// The arguments of `data run`: a direction, the `--down` shortcut for the
/// downward direction, where the database is, and which migrations to run.
#[derive(Debug)]
pub struct Run {
    pub direction: Direction,
    pub down: bool,
    pub database_schema: Option<String>,
    pub database_url: Option<String>,
    pub migrations: Vec<String>,
}

/// How to reach the database a run works on.
#[derive(Debug)]
pub struct DatabaseConfig {
    pub url: String,
    pub schema: Option<String>,
}

/// What a run hands to the migration runner.
#[derive(Debug)]
pub struct RunnerSettings {
    pub direction: Direction,
    pub migrations: Vec<String>,
    pub database: DatabaseConfig,
}

/// The `data` subcommands.
#[derive(Debug)]
pub enum Data {
    /// List all data migrations.
    List,
    /// Run a list of migrations.
    Run(Run),
}

/// What a `data` subcommand does.
#[derive(Debug)]
pub enum DataAction {
    /// Print these names, one per line.
    PrintNames(Vec<String>),
    /// Run the migration runner with these settings.
    Migrate(RunnerSettings),
}

/// The direction a run takes: down when `--down` is given, else the one chosen.
pub open spec fn spec_direction(direction: Direction, down: bool) -> Direction {
    if down {
        Direction::Down
    } else {
        direction
    }
}

/// `s` are the runner settings of `run`: its direction (down when `--down`
/// is given), its migrations and its database. `run` must have a database URL.
pub open spec fn is_settings_for(s: RunnerSettings, run: Run) -> bool {
    &&& s.direction == spec_direction(run.direction, run.down)
    &&& s.migrations == run.migrations
    &&& s.database.url == run.database_url->0
    &&& s.database.schema == run.database_schema
}

/// A run has one set of runner settings: `data run` through `Data::action`
/// and `Run::runner_settings` hand the runner the same settings.
pub proof fn lemma_settings_are_unique(run: Run, s1: RunnerSettings, s2: RunnerSettings)
    requires
        is_settings_for(s1, run),
        is_settings_for(s2, run),
    ensures
        s1 == s2,
{
}

impl Run {
    /// The direction this run takes.
    pub fn direction(&self) -> (d: Direction)
        ensures
            d == spec_direction(self.direction, self.down),
    {
        if self.down {
            Direction::Down
        } else {
            self.direction
        }
    }

    /// The settings of the runner for this run. The database URL must be set.
    pub fn runner_settings(self) -> (s: RunnerSettings)
        requires
            self.database_url is Some,
        ensures
            is_settings_for(s, self),
    {
        let direction = self.direction();
        let url = match self.database_url {
            Some(url) => url,
            None => {
                assert(false);
                String::new()
            },
        };
        RunnerSettings {
            direction,
            migrations: self.migrations,
            database: DatabaseConfig { url, schema: self.database_schema },
        }
    }
}

impl Data {
    /// What this subcommand does: `list` prints the names of the data
    /// migrations, `run` hands its settings to the runner. A run needs a database URL.
    pub fn action(self) -> (a: DataAction)
        requires
            self matches Data::Run(run) ==> run.database_url is Some,
        ensures
            self is List ==> (a matches DataAction::PrintNames(names)
                && names.deep_view() == seq![data_migration_name()]),
            self matches Data::Run(run) ==> (a matches DataAction::Migrate(s) && is_settings_for(s, run)),
    {
        match self {
            Data::List => DataAction::PrintNames(Migrator::data_migrations()),
            Data::Run(run) => DataAction::Migrate(run.runner_settings()),
        }
    }
}

} // verus!
