use media::cfg::{config_file, path, Config};
use media::db::{timestamp, timestamp_of};
use media::dir::{app_dir, config};
use media::exe::dump::fmt::sql::{columns_query, rows_query, tables_query};
use media::exe::dump::Format;
use media::exe::serve::port;
use media::text::{contains, join};

#[test]
fn merge_keeps_set_options() {
    let mut cli = Config { host: Some("::".to_string()), port: None, token: None, prefix: None };
    let file = Config {
        host: Some("127.0.0.1".to_string()),
        port: Some(8080),
        token: Some("secret".to_string()),
        prefix: None,
    };
    cli.merge(file);
    assert_eq!(cli.host.as_deref(), Some("::"));
    assert_eq!(cli.port, Some(8080));
    assert_eq!(cli.token.as_deref(), Some("secret"));
    assert_eq!(cli.prefix, None);
    assert_eq!(port(&cli), 8080);
    assert_eq!(port(&Config::default()), 3000);
}

#[test]
fn config_paths() {
    assert_eq!(config_file("/home/me/.config/media"), "/home/me/.config/media/config.toml");
    assert_eq!(config_file(""), "config.toml");
    assert_eq!(app_dir(Some("/etc/".to_string())), "/etc/media");
    assert_eq!(app_dir(None), "");
    assert_eq!(join("a", "b"), "a/b");
    let dir = config();
    assert!(dir.is_empty() || dir.ends_with("/media"));
    let file = path();
    assert!(file == "config.toml" || file.ends_with("/media/config.toml"));
}

#[test]
fn format_inferred_from_extension() {
    assert_eq!(Format::infer(Some("dump.sql")), Format::Sql);
    assert_eq!(Format::infer(Some("out/dump.sql/")), Format::Sql);
    assert_eq!(Format::infer(Some("dump.json")), Format::Json);
    assert_eq!(Format::infer(Some("dir/.sql")), Format::Json);
    assert_eq!(Format::infer(Some("a.sql/b")), Format::Json);
    assert_eq!(Format::infer(Some("dump.SQL")), Format::Json);
    assert_eq!(Format::infer(None), Format::Json);
    assert_eq!(Format::default(), Format::Json);
}

#[test]
fn sql_dump_queries() {
    assert_eq!(
        tables_query(),
        "SELECT name FROM sqlite_master WHERE type = 'table' AND name NOT LIKE 'sqlite_%' ORDER BY rowid"
    );
    assert_eq!(columns_query("tags"), "SELECT name FROM pragma_table_info('tags')");
    assert_eq!(
        rows_query("tags", &vec!["media".to_string(), "label".to_string()]),
        "SELECT 'INSERT OR IGNORE INTO \"tags\" (media, label) VALUES (' || quote(media) || ', ' || quote(label) || ');' FROM \"tags\""
    );
    assert_eq!(
        rows_query("t", &vec!["a".to_string()]),
        "SELECT 'INSERT OR IGNORE INTO \"t\" (a) VALUES (' || quote(a) || ');' FROM \"t\""
    );
}

#[test]
fn timestamps() {
    assert_eq!(timestamp_of(1_700_000_000), 1_700_000_000);
    assert_eq!(timestamp_of(u64::MAX), -1);
    assert!(timestamp().unwrap() > 1_600_000_000);
}

#[test]
fn text_search() {
    assert!(contains("application/json", "json"));
    assert!(contains("abc", ""));
    assert!(!contains("ab", "abc"));
    assert!(!contains("text/html", "json"));
}
