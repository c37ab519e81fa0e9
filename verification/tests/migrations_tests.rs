use erp_ai::migrations::{is_sql_file_name, migration_plan, migration_step, text_lt, MigrationAction, MigrationEvent};

#[test]
fn sql_file_names() {
    assert!(is_sql_file_name("001_init.sql"));
    assert!(is_sql_file_name("a.b.sql"));
    assert!(!is_sql_file_name("README.md"));
    assert!(!is_sql_file_name("notes"));
    assert!(!is_sql_file_name(".sql"));
    assert!(!is_sql_file_name("x.SQL"));
    assert!(!is_sql_file_name("x.sqlx"));
}

#[test]
fn text_order() {
    assert!(text_lt("000_a.sql", "001_a.sql"));
    assert!(text_lt("ab", "abc"));
    assert!(!text_lt("abc", "ab"));
    assert!(!text_lt("ab", "ab"));
    assert!(text_lt("B", "a"));
}

#[test]
fn plan_keeps_sql_files_in_name_order() {
    let names = vec![
        "002_iam.sql".to_string(),
        "README.md".to_string(),
        "000_init.sql".to_string(),
        "001_users.sql".to_string(),
    ];
    assert_eq!(migration_plan(names), vec!["000_init.sql", "001_users.sql", "002_iam.sql"]);
}

#[test]
fn empty_plan() {
    assert!(migration_plan(vec!["notes.txt".to_string()]).is_empty());
    let plan: Vec<String> = vec![];
    assert!(matches!(migration_step(&plan, 0, MigrationEvent::Start), (0, MigrationAction::Finished)));
}

#[test]
fn run_applies_only_new_migrations() {
    let plan = vec!["000_init.sql".to_string(), "001_users.sql".to_string()];
    let (pos, a) = migration_step(&plan, 0, MigrationEvent::Start);
    assert_eq!(pos, 0);
    assert!(matches!(a, MigrationAction::CheckApplied(ref n) if n == "000_init.sql"));
    // already applied: skipped
    let (pos, a) = migration_step(&plan, pos, MigrationEvent::Checked(true));
    assert_eq!(pos, 1);
    assert!(matches!(a, MigrationAction::CheckApplied(ref n) if n == "001_users.sql"));
    // not applied yet: executed
    let (pos, a) = migration_step(&plan, pos, MigrationEvent::Checked(false));
    assert_eq!(pos, 1);
    assert!(matches!(a, MigrationAction::Apply(ref n) if n == "001_users.sql"));
    let (pos, a) = migration_step(&plan, pos, MigrationEvent::Applied);
    assert_eq!(pos, 2);
    assert!(matches!(a, MigrationAction::Finished));
}

#[test]
fn failure_stops_the_run() {
    let plan = vec!["000_init.sql".to_string(), "001_users.sql".to_string()];
    let (pos, a) = migration_step(&plan, 0, MigrationEvent::Failed);
    assert_eq!(pos, 0);
    assert!(matches!(a, MigrationAction::Abort));
}

#[test]
fn second_run_executes_nothing() {
    let plan = vec!["000_init.sql".to_string(), "001_users.sql".to_string(), "002_iam.sql".to_string()];
    let (mut pos, mut a) = migration_step(&plan, 0, MigrationEvent::Start);
    let mut checked = Vec::new();
    loop {
        match a {
            MigrationAction::CheckApplied(name) => {
                checked.push(name);
                let r = migration_step(&plan, pos, MigrationEvent::Checked(true));
                pos = r.0;
                a = r.1;
            }
            MigrationAction::Finished => break,
            other => panic!("unexpected {:?}", other),
        }
    }
    assert_eq!(checked, plan);
}
