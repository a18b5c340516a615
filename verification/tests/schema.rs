use community_hub::schema::{build_sql_queries, build_static_schema, sqlx_db_table_macro, Config, FieldDecl};

fn field(name: &str, attrs: &[&str]) -> FieldDecl {
    FieldDecl { name: name.to_string(), attribute_idents: attrs.iter().map(|a| a.to_string()).collect() }
}

#[test]
fn config_takes_first_field_without_marker() {
    let config = Config::new(
        "app".to_string(),
        "CommunityMembership".to_string(),
        vec![field("_community_id", &[]), field("_user_id", &["a"]), field("role", &["doc"])],
    );
    assert_eq!(config.id_column_name, "_community_id");
    assert_eq!(config.table_name, "community_memberships");
    assert_eq!(config.model_schema_ident, "COMMUNITY_MEMBERSHIP_SCHEMA");
}

#[test]
fn config_takes_the_marked_field() {
    let config = Config::new(
        "app".to_string(),
        "Notification".to_string(),
        vec![field("message", &["doc"]), field("_id", &["id"]), field("link", &["id"])],
    );
    assert_eq!(config.id_column_name, "_id");
    assert_eq!(config.table_name, "notifications");
}

#[test]
fn queries_list_every_column() {
    let config = Config::new(
        "app".to_string(),
        "Post".to_string(),
        vec![field("_id", &[]), field("caption", &[])],
    );
    let (select, by_id) = build_sql_queries(&config);
    assert_eq!(select, "SELECT posts._id, posts.caption FROM posts");
    assert_eq!(by_id, "SELECT posts._id, posts.caption FROM posts WHERE posts._id = ?");
    let schema = build_static_schema(&config);
    assert_eq!(schema.columns, vec!["_id".to_string(), "caption".to_string()]);
    assert_eq!(schema.model_schema_ident, "POST_SCHEMA");
}

#[test]
fn derive_reports_the_id_field() {
    let (schema, index) = sqlx_db_table_macro(
        "app".to_string(),
        "UserTable".to_string(),
        vec![field("display_name", &[]), field("_id", &["id"])],
    );
    assert_eq!(index, 1);
    assert_eq!(schema.table_name, "user_tables");
    assert_eq!(
        schema.select_by_id_sql,
        "SELECT user_tables.display_name, user_tables._id FROM user_tables WHERE user_tables._id = ?"
    );
}
