use main_app::migration::{ColumnDefault, ColumnType, Migration, SchemaStep};

#[test]
fn migration_is_named_after_its_file() {
    assert_eq!(Migration.name(), "m20220101_000001_create_table");
}

#[test]
fn up_creates_users_then_accounts() {
    let steps = Migration.up();
    assert_eq!(steps.len(), 2);
    match &steps[0] {
        SchemaStep::CreateTable(t) => {
            assert_eq!(t.name, "users");
            assert!(t.if_not_exists);
            let names: Vec<&str> = t.columns.iter().map(|c| c.name.as_str()).collect();
            assert_eq!(names, vec!["id", "name", "email", "email_verified", "created_at"]);
            assert_eq!(t.columns[0].column_type, ColumnType::Uuid);
            assert!(t.columns[0].primary_key);
            assert_eq!(t.columns[0].default, Some(ColumnDefault::UuidV7));
            assert_eq!(t.columns[3].default, Some(ColumnDefault::False));
            assert_eq!(t.columns[4].column_type, ColumnType::TimestampWithTimeZone);
            assert!(t.columns.iter().all(|c| !c.nullable));
            assert!(t.foreign_keys.is_empty());
        }
        _ => panic!("expected a table creation"),
    }
    match &steps[1] {
        SchemaStep::CreateTable(t) => {
            assert_eq!(t.name, "accounts");
            let names: Vec<&str> = t.columns.iter().map(|c| c.name.as_str()).collect();
            assert_eq!(
                names,
                vec!["id", "user_id", "provider", "password", "provider_id", "created_at"]
            );
            assert!(t.columns[3].nullable);
            assert!(t.columns[4].nullable);
            assert!(!t.columns[2].nullable);
            assert_eq!(t.foreign_keys.len(), 1);
            let k = &t.foreign_keys[0];
            assert_eq!(k.name, "user_id");
            assert_eq!((k.from_table.as_str(), k.from_column.as_str()), ("accounts", "user_id"));
            assert_eq!((k.to_table.as_str(), k.to_column.as_str()), ("users", "id"));
            assert!(k.on_delete_cascade);
        }
        _ => panic!("expected a table creation"),
    }
}

#[test]
fn down_drops_the_tables_up_creates() {
    let created: Vec<String> = Migration
        .up()
        .into_iter()
        .filter_map(|s| match s {
            SchemaStep::CreateTable(t) => Some(t.name),
            _ => None,
        })
        .collect();
    let dropped: Vec<String> = Migration
        .down()
        .into_iter()
        .filter_map(|s| match s {
            SchemaStep::DropTable(n) => Some(n),
            _ => None,
        })
        .collect();
    assert_eq!(dropped, vec!["users".to_string(), "accounts".to_string()]);
    let mut a = created.clone();
    let mut b = dropped.clone();
    a.sort();
    b.sort();
    assert_eq!(a, b);
}
