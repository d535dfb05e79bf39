use lrcget::schema::{
    backfill_statements, lowercase_columns, migration_step_actions, upgrade_actions, upgrade_plan, LowercaseColumn,
    MigrationAction, MigrationStep, CURRENT_DB_VERSION,
    SCHEMA_V1, SCHEMA_V2, SCHEMA_V3, SCHEMA_V4,
};
use lrcget::sql::{SqlValue, Statement};

fn versions(steps: &[MigrationStep]) -> Vec<u32> {
    steps.iter().map(|s| s.version).collect()
}

#[test]
fn new_database_runs_every_step_in_order() {
    let plan = upgrade_plan(0);
    assert_eq!(versions(&plan), vec![1, 2, 3, 4]);
    assert_eq!(plan.iter().map(|s| s.enable_wal).collect::<Vec<bool>>(), vec![true, true, false, false]);
    assert_eq!(plan.iter().map(|s| s.backfill_lowercase).collect::<Vec<bool>>(), vec![false, false, false, true]);
    assert_eq!(plan[0].schema_sql, SCHEMA_V1);
    assert_eq!(plan[1].schema_sql, SCHEMA_V2);
    assert_eq!(plan[2].schema_sql, SCHEMA_V3);
    assert_eq!(plan[3].schema_sql, SCHEMA_V4);
}

#[test]
fn partial_upgrade_runs_the_missing_steps() {
    assert_eq!(versions(&upgrade_plan(1)), vec![2, 3, 4]);
    assert_eq!(versions(&upgrade_plan(2)), vec![3, 4]);
    assert_eq!(versions(&upgrade_plan(3)), vec![4]);
}

#[test]
fn up_to_date_database_is_left_alone() {
    assert!(upgrade_plan(CURRENT_DB_VERSION).is_empty());
    assert!(upgrade_plan(9).is_empty());
    assert!(upgrade_plan(u32::MAX).is_empty());
}

#[test]
fn plan_is_tail_of_full_plan() {
    let full = upgrade_plan(0);
    for v in 0..=CURRENT_DB_VERSION {
        assert_eq!(upgrade_plan(v), full[v as usize..].to_vec());
    }
}

#[test]
fn upgrading_twice_does_nothing_more() {
    for v in 0..=6u32 {
        let plan = upgrade_plan(v);
        let after: u32 = plan.last().map(|s| s.version).unwrap_or(v);
        assert!(upgrade_plan(after).is_empty());
    }
}

#[test]
fn schema_texts_are_dedented() {
    assert!(SCHEMA_V1.starts_with("CREATE TABLE directories (\n  id INTEGER PRIMARY KEY,\n  path TEXT\n);\n"));
    assert!(SCHEMA_V1.ends_with("VALUES (1, 0);\n"));
    assert_eq!(SCHEMA_V3, "ALTER TABLE tracks ADD instrumental BOOLEAN;\n");
}

#[test]
fn lowercase_columns_in_order() {
    let cols = lowercase_columns();
    assert_eq!(cols, vec![LowercaseColumn::TrackTitle, LowercaseColumn::AlbumName, LowercaseColumn::ArtistName]);
    assert_eq!(LowercaseColumn::TrackTitle.select_sql(), "SELECT id, title FROM tracks");
    assert_eq!(LowercaseColumn::AlbumName.update_sql(), "UPDATE albums SET name_lower = ? WHERE id = ?");
    assert_eq!(LowercaseColumn::ArtistName.select_sql(), "SELECT id, name FROM artists");
}

#[test]
fn backfill_binds_lowered_name_then_id() {
    let rows = vec![(7i64, String::from("hello world")), (9i64, String::from("abc"))];
    let st = backfill_statements(LowercaseColumn::TrackTitle, &rows);
    assert_eq!(
        st,
        vec![
            Statement {
                sql: "UPDATE tracks SET title_lower = ? WHERE id = ?",
                params: vec![SqlValue::Text(String::from("hello world")), SqlValue::Integer(7)],
            },
            Statement {
                sql: "UPDATE tracks SET title_lower = ? WHERE id = ?",
                params: vec![SqlValue::Text(String::from("abc")), SqlValue::Integer(9)],
            },
        ]
    );
    assert!(backfill_statements(LowercaseColumn::ArtistName, &Vec::new()).is_empty());
}

#[test]
fn step_work_is_one_transaction() {
    let plan = upgrade_plan(0);
    assert_eq!(
        migration_step_actions(plan[0]),
        vec![
            MigrationAction::EnableWal,
            MigrationAction::BeginTransaction,
            MigrationAction::SetUserVersion(1),
            MigrationAction::ExecuteBatch(SCHEMA_V1),
            MigrationAction::Commit,
        ]
    );
    assert_eq!(
        migration_step_actions(plan[3]),
        vec![
            MigrationAction::BeginTransaction,
            MigrationAction::SetUserVersion(4),
            MigrationAction::ExecuteBatch(SCHEMA_V4),
            MigrationAction::Backfill(LowercaseColumn::TrackTitle),
            MigrationAction::Backfill(LowercaseColumn::AlbumName),
            MigrationAction::Backfill(LowercaseColumn::ArtistName),
            MigrationAction::Commit,
        ]
    );
}

#[test]
fn upgrade_work_is_steps_in_order() {
    let from_two = upgrade_actions(2);
    assert_eq!(
        from_two,
        vec![
            MigrationAction::BeginTransaction,
            MigrationAction::SetUserVersion(3),
            MigrationAction::ExecuteBatch(SCHEMA_V3),
            MigrationAction::Commit,
            MigrationAction::BeginTransaction,
            MigrationAction::SetUserVersion(4),
            MigrationAction::ExecuteBatch(SCHEMA_V4),
            MigrationAction::Backfill(LowercaseColumn::TrackTitle),
            MigrationAction::Backfill(LowercaseColumn::AlbumName),
            MigrationAction::Backfill(LowercaseColumn::ArtistName),
            MigrationAction::Commit,
        ]
    );
    assert!(upgrade_actions(CURRENT_DB_VERSION).is_empty());
    let full = upgrade_actions(0);
    assert_eq!(full.len(), 5 + 5 + 4 + 7);
    assert_eq!(full[full.len() - from_two.len()..].to_vec(), from_two);
}
