//! Tests for the configuration store: construction, override, lookup, the
//! documented baseline, and end-to-end rendering.

use sqlite3_src_build::{
    Config, DoubleQuotedStrings, Setting, SettingKey, Synchronous, Threading,
};

fn rendered(config: &Config) -> Vec<(String, Option<String>)> {
    let mut defs: Vec<(String, Option<String>)> = config
        .definitions()
        .into_iter()
        .map(|d| (d.symbol, d.value))
        .collect();
    defs.sort();
    defs
}

#[test]
fn new_last_write_wins() {
    let config = Config::new(vec![
        Setting::Sync(Synchronous::Normal),
        Setting::Sync(Synchronous::Full),
    ]);
    assert_eq!(
        config.get(SettingKey::Sync),
        Some(Setting::Sync(Synchronous::Full))
    );
}

#[test]
fn get_unset_key_returns_none() {
    let config = Config::new(vec![Setting::Debug(true)]);
    assert_eq!(config.get(SettingKey::MaxColumns), None);
    assert_eq!(Config::empty().get(SettingKey::Debug), None);
}

#[test]
fn set_inserts_and_replaces() {
    let mut config = Config::empty();
    config.set(Setting::Threading(Threading::SingleThread));
    assert_eq!(
        config.get(SettingKey::Threading),
        Some(Setting::Threading(Threading::SingleThread))
    );
    config.set(Setting::Threading(Threading::Serialized));
    assert_eq!(
        config.get(SettingKey::Threading),
        Some(Setting::Threading(Threading::Serialized))
    );
}

#[test]
fn set_is_idempotent() {
    let mut once = Config::baseline(false);
    once.set(Setting::MaxColumns(100));
    let mut twice = Config::baseline(false);
    twice.set(Setting::MaxColumns(100));
    twice.set(Setting::MaxColumns(100));
    assert_eq!(twice.get(SettingKey::MaxColumns), Some(Setting::MaxColumns(100)));
    assert_eq!(once, twice);
}

#[test]
fn set_leaves_other_keys_untouched() {
    let mut config = Config::baseline(false);
    config.set(Setting::MaxExpressionDepth(500));
    assert_eq!(
        config.get(SettingKey::Sync),
        Some(Setting::Sync(Synchronous::Full))
    );
    assert_eq!(
        config.get(SettingKey::Threading),
        Some(Setting::Threading(Threading::MultiThread))
    );
}

#[test]
fn baseline_matches_documented_table() {
    let config = Config::baseline(false);
    let expected = [
        Setting::Sync(Synchronous::Full),
        Setting::WalSync(Synchronous::Normal),
        Setting::Threading(Threading::MultiThread),
        Setting::DoubleQuotedStrings(DoubleQuotedStrings { in_ddl: false, in_dml: false }),
        Setting::DefaultForeignKeys(true),
        Setting::DefaultMemoryStatus(false),
        Setting::EnableAlloca(true),
        Setting::EnableAuthorization(false),
        Setting::EnableAutomaticIndex(true),
        Setting::EnableAutomaticInitialize(true),
        Setting::EnableAutomaticReset(false),
        Setting::EnableBlobIo(false),
        Setting::EnableColumnDeclaredType(false),
        Setting::EnableDatabasePagesVirtualTable(false),
        Setting::EnableDatabaseStatisticsVirtualTable(false),
        Setting::EnableDatabaseUri(true),
        Setting::EnableDeprecated(false),
        Setting::EnableGetTable(false),
        Setting::EnableMemoryManagement(true),
        Setting::EnableProgressCallback(false),
        Setting::EnableSharedCache(false),
        Setting::EnableTrace(false),
        Setting::EnableUtf16(false),
        Setting::EnableVirtualTables(true),
        Setting::EnableWriteAheadLog(true),
        Setting::LikeOperatorMatchesBlob(false),
        Setting::MaxExpressionDepth(0),
    ];
    for setting in expected {
        assert_eq!(config.get(setting.key_of()), Some(setting));
    }
    assert_eq!(config.get(SettingKey::Debug), None);
    assert_eq!(config.get(SettingKey::EnableApiArmor), None);
}

#[test]
fn baseline_diagnostics_adds_guard_options() {
    let config = Config::baseline(true);
    assert_eq!(config.get(SettingKey::Debug), Some(Setting::Debug(true)));
    assert_eq!(
        config.get(SettingKey::EnableApiArmor),
        Some(Setting::EnableApiArmor(true))
    );
    assert_eq!(
        config.get(SettingKey::Sync),
        Some(Setting::Sync(Synchronous::Full))
    );
}

#[test]
fn baseline_is_deterministic() {
    assert_eq!(Config::baseline(false), Config::baseline(false));
    assert_eq!(Config::baseline(true), Config::baseline(true));
    assert_eq!(Config::baseline(false), Config::default());
}

#[test]
fn empty_config_renders_nothing() {
    assert!(Config::empty().definitions().is_empty());
}

#[test]
fn definitions_are_deterministic() {
    let config = Config::baseline(true);
    assert_eq!(config.definitions(), config.definitions());
}

#[test]
fn overridden_default_renders_new_value_once() {
    let mut config = Config::baseline(false);
    config.set(Setting::MaxExpressionDepth(500));
    let defs = rendered(&config);

    let depth: Vec<_> = defs
        .iter()
        .filter(|(symbol, _)| symbol == "SQLITE_MAX_EXPR_DEPTH")
        .collect();
    assert_eq!(
        depth,
        vec![&("SQLITE_MAX_EXPR_DEPTH".to_string(), Some("500".to_string()))]
    );

    // Every other pair is exactly what the plain baseline renders.
    let mut base = rendered(&Config::baseline(false));
    base.retain(|(symbol, _)| symbol != "SQLITE_MAX_EXPR_DEPTH");
    let mut rest = defs.clone();
    rest.retain(|(symbol, _)| symbol != "SQLITE_MAX_EXPR_DEPTH");
    assert_eq!(rest, base);
}

#[test]
fn baseline_renders_documented_pairs() {
    let defs = rendered(&Config::baseline(false));
    assert!(defs.contains(&("SQLITE_DEFAULT_SYNCHRONOUS".to_string(), Some("2".to_string()))));
    assert!(defs.contains(&("SQLITE_DEFAULT_WAL_SYNCHRONOUS".to_string(), Some("1".to_string()))));
    assert!(defs.contains(&("SQLITE_THREADSAFE".to_string(), Some("1".to_string()))));
    assert!(defs.contains(&("SQLITE_DQS".to_string(), Some("0".to_string()))));
    assert!(defs.contains(&("SQLITE_DEFAULT_FOREIGN_KEYS".to_string(), Some("1".to_string()))));
    assert!(defs.contains(&("SQLITE_DEFAULT_MEMSTATUS".to_string(), Some("0".to_string()))));
    assert!(defs.contains(&("SQLITE_USE_ALLOCA".to_string(), None)));
    assert!(defs.contains(&("SQLITE_OMIT_AUTHORIZATION".to_string(), None)));
    assert!(defs.contains(&("SQLITE_USE_URI".to_string(), Some("1".to_string()))));
    assert!(defs.contains(&("SQLITE_OMIT_DEPRECATED".to_string(), None)));
    assert!(defs.contains(&("SQLITE_ENABLE_MEMORY_MANAGEMENT".to_string(), None)));
    assert!(defs.contains(&("SQLITE_OMIT_PROGRESS_CALLBACK".to_string(), None)));
    assert!(defs.contains(&("SQLITE_OMIT_SHARED_CACHE".to_string(), None)));
    assert!(defs.contains(&("SQLITE_OMIT_TRACE".to_string(), None)));
    assert!(defs.contains(&("SQLITE_OMIT_UTF16".to_string(), None)));
    assert!(defs.contains(&("SQLITE_LIKE_DOESNT_MATCH_BLOBS".to_string(), None)));
    assert!(defs.contains(&("SQLITE_MAX_EXPR_DEPTH".to_string(), Some("0".to_string()))));
    // Enabled capabilities whose "omit" symbols must stay away entirely.
    assert!(!defs.iter().any(|(symbol, _)| symbol == "SQLITE_OMIT_AUTOMATIC_INDEX"));
    assert!(!defs.iter().any(|(symbol, _)| symbol == "SQLITE_OMIT_AUTOINIT"));
    assert!(!defs.iter().any(|(symbol, _)| symbol == "SQLITE_OMIT_VIRTUALTABLE"));
    assert!(!defs.iter().any(|(symbol, _)| symbol == "SQLITE_OMIT_WAL"));
    assert!(!defs.iter().any(|(symbol, _)| symbol == "SQLITE_DEBUG"));
}

#[test]
fn rendering_is_order_independent() {
    let forward = Config::new(vec![
        Setting::Debug(true),
        Setting::MaxColumns(42),
        Setting::Sync(Synchronous::Extra),
    ]);
    let backward = Config::new(vec![
        Setting::Sync(Synchronous::Extra),
        Setting::MaxColumns(42),
        Setting::Debug(true),
    ]);
    assert_eq!(rendered(&forward), rendered(&backward));
}
