use tj2::cli::{
    create_database_query as cli_create_database_query, database_exists_query, drop_database_query,
    init_statements, password_prompt, DbInit, DbInitMode, PostgresArgs,
};
use tj2::tools::db::migrate::migrate_text;
use tj2::tools::db::{
    create_database_query, create_role_query, grant_connect_query, grant_read_query, grant_write_query,
    user_password_prompt, DbConn,
};
use tj2::tools::sec::{pki_read_text, private_key_path};

#[test]
fn setup_defaults() {
    let args = PostgresArgs::defaults();
    assert_eq!(args.user, "postgres");
    assert_eq!(args.host, "localhost");
    assert_eq!(args.port, 5432);
    assert_eq!(args.dbname, "tj2");

    let conn = DbConn::defaults();
    assert_eq!(conn.user, "tj2");
    assert!(!conn.password);
    assert_eq!(conn.port, 5432);
    assert_eq!(conn.host, "localhost");
    assert_eq!(conn.dbname, "tj2");
    assert_eq!(conn.password_prompt(), "tj2's password: ");
}

#[test]
fn setup_mode_from_flags() {
    let init = |create: bool, recreate: bool| DbInit {
        postgres: PostgresArgs::defaults(),
        file: None,
        create,
        recreate,
    };
    assert_eq!(init(false, false).mode(), DbInitMode::Existing);
    assert_eq!(init(true, false).mode(), DbInitMode::Create);
    assert_eq!(init(false, true).mode(), DbInitMode::Recreate);
}

#[test]
fn setup_queries() {
    assert_eq!(password_prompt("postgres"), "postgres password: ");
    assert_eq!(drop_database_query("tj2"), "drop database if exists tj2");
    assert_eq!(cli_create_database_query("tj2"), "create database tj2");
    assert_eq!(
        database_exists_query("tj2"),
        "select from pg_database where datname = 'tj2'"
    );
}

#[test]
fn setup_script_statements() {
    let statements = init_statements("create table a (id int);\n\n  create table b (id int) ; ;\n");
    assert_eq!(statements, vec!["create table a (id int)".to_owned(), "create table b (id int)".to_owned()]);
    assert!(init_statements("  ;\n; ").is_empty());
}

#[test]
fn tool_queries() {
    assert_eq!(create_database_query("tj2"), "create database tj2 with encoding 'UTF8'");
    assert_eq!(
        create_role_query("tj2", "secret", false),
        "create role tj2 nosuperuser nocreatedb nocreaterole noinherit login password 'secret'"
    );
    assert_eq!(
        create_role_query("tj2", "secret", true),
        "create role tj2 nosuperuser nocreatedb nocreaterole noinherit login encrypted password 'secret'"
    );
    assert_eq!(grant_connect_query("tj2", "bob"), "grant connect on database tj2 to bob");
    assert_eq!(grant_read_query("bob"), "grant pg_read_all_data to bob");
    assert_eq!(grant_write_query("bob"), "grant pg_write_all_data to bob");
    assert_eq!(user_password_prompt("bob"), "bob's password: ");
}

#[test]
fn migration_text() {
    assert_eq!(
        migrate_text(false, "V", 3, "entries", 42, Some("2024-01-01")),
        "V3) entries\nchecksum: 42\ndate: 2024-01-01"
    );
    assert_eq!(
        migrate_text(true, "U", -1, "undo", 0, None),
        "  - U-1) undo\n    checksum: 0"
    );
}

#[test]
fn private_key_text() {
    assert_eq!(private_key_path("/keys"), "/keys/private.key");
    assert_eq!(private_key_path("keys/"), "keys/private.key");
    assert_eq!(
        pki_read_text("2024-01-01", &[0x0f, 0xa0]),
        "created: 2024-01-01\nbytes:   0FA0\n"
    );
}
