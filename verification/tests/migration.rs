use trustify::migration::{Migration, Migrations, Migrator};

#[test]
fn builder_keeps_order() {
    let m: Migrations<&str, u8> = Migrations::new().normal("a").data(1).normal("b").data(2);
    assert_eq!(
        m.into_vec(),
        vec![Migration::Normal("a"), Migration::Data(1), Migration::Normal("b"), Migration::Data(2)]
    );
}

#[test]
fn data_migrations_keep_only_data_in_order() {
    let m: Migrations<&str, u8> = Migrations::new().normal("a").data(1).normal("b").data(2);
    assert_eq!(m.data_migrations(), vec![1, 2]);
    let empty: Migrations<&str, u8> = Migrations::new().normal("a");
    assert!(empty.data_migrations().is_empty());
}

#[test]
fn schema_migrations_wrap_data_migrations_in_place() {
    let m: Migrations<String, u8> = Migrations::new().normal("a".to_string()).data(1).normal("b".to_string());
    let all = m.schema_migrations(|d| format!("wrapped {d}"));
    assert_eq!(all, vec!["a".to_string(), "wrapped 1".to_string(), "b".to_string()]);
}

#[test]
fn catalogue_order() {
    let all = Migrator::migrations().into_vec();
    assert_eq!(all.len(), 26);
    assert_eq!(all[0], Migration::Normal("m0000010_init".to_string()));
    assert_eq!(all[10], Migration::Normal("m0000970_alter_importer_add_heartbeat".to_string()));
    assert_eq!(all[24], Migration::Normal("m0001130_gover_cmp".to_string()));
    assert_eq!(all[25], Migration::Data("m0002000_example_data_migration".to_string()));
    let mut names: Vec<String> = all
        .iter()
        .map(|m| match m {
            Migration::Normal(n) | Migration::Data(n) => n.clone(),
        })
        .collect();
    let before = names.clone();
    names.sort();
    assert_eq!(names, before);
}

#[test]
fn data_migration_names() {
    assert_eq!(Migrator::data_migrations(), vec!["m0002000_example_data_migration".to_string()]);
}

#[test]
fn default_list_is_empty() {
    let m: Migrations<u8, u8> = Migrations::default();
    assert!(m.into_vec().is_empty());
    let n: Migrations<u8, u8> = Migrations::new();
    assert!(n.data_migrations().is_empty());
}
