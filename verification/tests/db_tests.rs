use mengxi::db::{
    branch_id_at, db_dir_in, db_path, db_path_in, join_path, migration_version, new_branch_record,
    next_seq, pending_migrations, render_cell, select_statement, session_id_at, sort_migrations,
    uuid_timestamp, SqlCell,
};

#[test]
fn paths_join_like_unix_paths() {
    assert_eq!(join_path("/home/u", "x"), "/home/u/x");
    assert_eq!(join_path("/home/u/", "x"), "/home/u/x");
    assert_eq!(join_path("", "x"), "x");
    assert_eq!(join_path("/home/u", "/abs"), "/abs");
}

#[test]
fn database_lives_under_the_home_directory() {
    assert_eq!(db_dir_in("/home/u"), "/home/u/.mengxi/data");
    assert_eq!(db_path_in("/home/u"), "/home/u/.mengxi/data/mengxi.db");
    if let Some(p) = db_path() {
        assert!(p.ends_with("/.mengxi/data/mengxi.db"));
    }
}

#[test]
fn migration_versions_come_from_the_file_name() {
    assert_eq!(migration_version("001_create_projects.sql"), Ok(Some(1)));
    assert_eq!(migration_version("012_create_search_feedback.sql"), Ok(Some(12)));
    assert_eq!(migration_version("README.md"), Ok(None));
    assert_eq!(
        migration_version("abc_thing.sql"),
        Err("Migration file 'abc_thing.sql' does not start with a numeric prefix".to_string())
    );
}

#[test]
fn test_discover_migrations() {
    let names = ["003_add_file_metadata.sql", "001_create_projects.sql", "notes.txt", "002_create_files.sql"];
    let mut found: Vec<(i64, String)> = Vec::new();
    for n in names {
        if let Some(v) = migration_version(n).unwrap() {
            found.push((v, n.to_string()));
        }
    }
    let sorted = sort_migrations(found);
    let versions: Vec<i64> = sorted.iter().map(|m| m.0).collect();
    assert_eq!(versions, vec![1, 2, 3]);
    assert_eq!(sorted[0].1, "001_create_projects.sql");
}

#[test]
fn test_schema_version_tracking() {
    let ms: Vec<(i64, String)> = (1..=5).map(|v| (v, format!("m{}", v))).collect();
    let pending = pending_migrations(3, &ms);
    assert_eq!(pending, vec![(4, "m4".to_string()), (5, "m5".to_string())]);
    assert!(pending_migrations(5, &ms).is_empty());
    assert_eq!(pending_migrations(0, &ms), ms);
}

#[test]
fn test_db_run_query_rejects_non_select() {
    let err = select_statement("DELETE FROM projects").unwrap_err();
    assert!(err.message().contains("DB_NON_SELECT"));
}

#[test]
fn test_db_run_query_select_whitespace() {
    assert_eq!(select_statement("  select * from projects  "), Ok("select * from projects"));
    assert_eq!(select_statement("SELECT 1"), Ok("SELECT 1"));
    assert!(select_statement("SEL").is_err());
}

#[test]
fn identifiers_are_prefixed_hex_times() {
    assert_eq!(session_id_at(0xabc), "sess_abc");
    assert_eq!(branch_id_at(16), "br_10");
    let t = uuid_timestamp();
    assert!(!t.is_empty() && t.chars().all(|c| c.is_ascii_hexdigit()));
}

#[test]
fn next_message_number_follows_the_highest() {
    assert_eq!(next_seq(-1), 0);
    assert_eq!(next_seq(41), 42);
}

#[test]
fn branch_records_keep_their_fields() {
    let b = new_branch_record("br_1".to_string(), "sess_1", Some("br_0"), 7, "alt", 99);
    assert_eq!(b.id, "br_1");
    assert_eq!(b.session_id, "sess_1");
    assert_eq!(b.parent_branch_id.as_deref(), Some("br_0"));
    assert_eq!(b.branch_point_seq, Some(7));
    assert_eq!(b.name, "alt");
    assert_eq!(b.created_at, 99);
}

#[test]
fn cells_are_rendered() {
    assert_eq!(render_cell(&SqlCell::Null), "NULL");
    assert_eq!(render_cell(&SqlCell::Integer(-42)), "-42");
    assert_eq!(render_cell(&SqlCell::Text("x".to_string())), "x");
    assert_eq!(render_cell(&SqlCell::Blob(16)), "<blob 16 bytes>");
}
