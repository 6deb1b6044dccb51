//! Alias mode: lookup, listing, and each failure of the error taxonomy.

use ourl::alias::parse_alias_table;
use ourl::cli::{Cli, Env, Like, SubCommand};
use ourl::errors::ResolveError;
use ourl::resolver::Action;

fn like(config: Option<&str>, alias: Option<&str>, list: bool) -> Like {
    Like {
        config: config.map(|c| c.to_string()),
        alias: alias.map(|a| a.to_string()),
        list,
    }
}

#[test]
fn alias_lookup_returns_stored_url_verbatim() {
    let lk = like(None, Some("a"), false);
    let file = Some("{\"a\": \"https://x.test/y\"}".to_string());
    assert_eq!(lk.open_url(&file), Ok("https://x.test/y".to_string()));
}

#[test]
fn alias_lookup_is_exact_match() {
    let lk = like(None, Some("b"), false);
    let file = Some("{\"a\": \"https://x.test/y\"}".to_string());
    assert_eq!(lk.open_url(&file), Err(ResolveError::AliasNotFound));
}

#[test]
fn alias_lookup_is_case_sensitive() {
    let lk = like(None, Some("A"), false);
    let file = Some("{\"a\": \"https://x.test/y\"}".to_string());
    assert_eq!(lk.open_url(&file), Err(ResolveError::AliasNotFound));
}

#[test]
fn listing_yields_all_entries_untouched() {
    let lk = like(None, None, true);
    let file = Some("{\"a\": \"https://x.test/y\", \"b\": \"ftp://z\"}".to_string());
    match lk.run(&file) {
        Ok(Action::List(table)) => {
            assert_eq!(table.len(), 2);
            let expected = vec![
                ("a".to_string(), "https://x.test/y".to_string()),
                ("b".to_string(), "ftp://z".to_string()),
            ];
            assert_eq!(table.entries(), &expected);
        }
        _ => panic!("expected the alias list"),
    }
}

#[test]
fn listing_never_opens_a_url() {
    let lk = like(None, Some("a"), true);
    let file = Some("{\"a\": \"https://x.test/y\"}".to_string());
    assert!(!matches!(lk.run(&file), Ok(Action::Open(_))));
}

#[test]
fn malformed_config_is_reported() {
    let lk = like(None, Some("a"), false);
    let file = Some("not json at all".to_string());
    assert_eq!(lk.open_url(&file), Err(ResolveError::AliasFileMalformed));
}

#[test]
fn non_string_values_are_malformed() {
    let lk = like(None, Some("a"), false);
    let file = Some("{\"a\": 3}".to_string());
    assert_eq!(lk.open_url(&file), Err(ResolveError::AliasFileMalformed));
}

#[test]
fn unreadable_config_is_reported() {
    let lk = like(None, Some("a"), false);
    assert_eq!(lk.open_url(&None), Err(ResolveError::AliasFileUnreadable));
}

#[test]
fn missing_alias_argument_is_reported() {
    let lk = like(None, None, false);
    let file = Some("{\"a\": \"https://x.test/y\"}".to_string());
    assert_eq!(lk.open_url(&file), Err(ResolveError::MissingAliasArgument));
}

#[test]
fn like_run_opens_the_alias_url() {
    let cli = Cli { subcmd: SubCommand::Like(like(None, Some("a"), false)) };
    let env = Env {
        default_domain: None,
        alias_file: Some("{\"a\": \"https://x.test/y\"}".to_string()),
    };
    match cli.run(&env) {
        Ok(Action::Open(url)) => assert_eq!(url, "https://x.test/y"),
        _ => panic!("expected a URL to open"),
    }
}

#[test]
fn parse_alias_table_reads_pairs() {
    let table = parse_alias_table("{\"k\": \"v\"}").unwrap();
    assert_eq!(table.len(), 1);
    assert_eq!(table.get(&"k".to_string()), Some(&"v".to_string()));
    assert_eq!(table.get(&"v".to_string()), None);
}

#[test]
fn config_path_defaults_under_home() {
    let lk = like(None, None, false);
    assert_eq!(lk.config_path("/home/u"), "/home/u/.ourl-likes.json");
    let lk2 = like(Some("/tmp/aliases.json"), None, false);
    assert_eq!(lk2.config_path("/home/u"), "/tmp/aliases.json");
}

#[test]
fn error_messages_are_fixed() {
    assert_eq!(
        ResolveError::MissingAliasArgument.message(),
        "an alias argument is required"
    );
    assert_eq!(ResolveError::LaunchError.message(), "failed to start the browser");
}
