use trustify::data_command::{Data, DataAction, Direction, Run};

fn run(direction: Direction, down: bool, url: Option<&str>) -> Run {
    Run {
        direction,
        down,
        database_schema: Some("public".to_string()),
        database_url: url.map(|u| u.to_string()),
        migrations: vec!["m0002000_example_data_migration".to_string()],
    }
}

#[test]
fn down_flag_overrides_direction() {
    assert_eq!(run(Direction::Up, false, None).direction(), Direction::Up);
    assert_eq!(run(Direction::Down, false, None).direction(), Direction::Down);
    assert_eq!(run(Direction::Up, true, None).direction(), Direction::Down);
    assert_eq!(run(Direction::Down, true, None).direction(), Direction::Down);
}

#[test]
fn runner_settings_carry_the_arguments() {
    let s = run(Direction::Up, true, Some("postgres://db")).runner_settings();
    assert_eq!(s.direction, Direction::Down);
    assert_eq!(s.database.url, "postgres://db");
    assert_eq!(s.database.schema, Some("public".to_string()));
    assert_eq!(s.migrations, vec!["m0002000_example_data_migration".to_string()]);
}

#[test]
fn list_prints_data_migration_names() {
    match Data::List.action() {
        DataAction::PrintNames(names) => assert_eq!(names, vec!["m0002000_example_data_migration".to_string()]),
        other => panic!("unexpected {other:?}"),
    }
}

#[test]
fn run_migrates() {
    match Data::Run(run(Direction::Up, false, Some("postgres://db"))).action() {
        DataAction::Migrate(s) => {
            assert_eq!(s.direction, Direction::Up);
            assert_eq!(s.database.url, "postgres://db");
        },
        other => panic!("unexpected {other:?}"),
    }
}
