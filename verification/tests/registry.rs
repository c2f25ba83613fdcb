//! Tests for the setting registry: key extraction and rendering rules.

use sqlite3_src_build::{
    Definition, DoubleQuotedStrings, Setting, Synchronous, TemporaryStorage, Threading,
};

fn pairs(defs: Vec<Definition>) -> Vec<(String, Option<String>)> {
    defs.into_iter().map(|d| (d.symbol, d.value)).collect()
}

#[test]
fn key_of_ignores_payload() {
    assert_eq!(
        Setting::Sync(Synchronous::Off).key_of(),
        Setting::Sync(Synchronous::Full).key_of()
    );
    assert_eq!(
        Setting::MaxExpressionDepth(0).key_of(),
        Setting::MaxExpressionDepth(500).key_of()
    );
    assert_eq!(Setting::Debug(true).key_of(), Setting::Debug(false).key_of());
    assert_eq!(
        Setting::DoubleQuotedStrings(DoubleQuotedStrings { in_ddl: true, in_dml: false }).key_of(),
        Setting::DoubleQuotedStrings(DoubleQuotedStrings { in_ddl: false, in_dml: true }).key_of()
    );
}

#[test]
fn key_of_distinct_variants_never_collide() {
    let samples = vec![
        Setting::DoubleQuotedStrings(DoubleQuotedStrings { in_ddl: false, in_dml: false }),
        Setting::Threading(Threading::MultiThread),
        Setting::Debug(true),
        Setting::Sync(Synchronous::Full),
        Setting::WalSync(Synchronous::Normal),
        Setting::DefaultAutomaticIndex(true),
        Setting::DefaultAutomaticVacuum(true),
        Setting::DefaultForeignKeys(true),
        Setting::DefaultMemoryStatus(true),
        Setting::EnableAlloca(true),
        Setting::EnableApiArmor(true),
        Setting::EnableAuthorization(true),
        Setting::EnableAutomaticIndex(true),
        Setting::EnableAutomaticInitialize(true),
        Setting::EnableAutomaticReset(true),
        Setting::EnableBlobIo(true),
        Setting::EnableColumnDeclaredType(true),
        Setting::EnableColumnMetadata(true),
        Setting::EnableDatabasePagesVirtualTable(true),
        Setting::EnableDatabaseStatisticsVirtualTable(true),
        Setting::EnableDatabaseUri(true),
        Setting::EnableDeprecated(true),
        Setting::EnableGeopoly(true),
        Setting::EnableGetTable(true),
        Setting::EnableFts3(true),
        Setting::EnableFts5(true),
        Setting::EnableJson(true),
        Setting::EnableLoadExtension(true),
        Setting::EnableMemoryManagement(true),
        Setting::EnableNormalizeSql(true),
        Setting::EnablePreUpdateHook(true),
        Setting::EnableProgressCallback(true),
        Setting::EnableRtree(true),
        Setting::EnableStat4(true),
        Setting::EnableSerialize(true),
        Setting::EnableSession(true),
        Setting::EnableSnapshot(true),
        Setting::EnableSharedCache(true),
        Setting::EnableSoundex(true),
        Setting::EnableTclVariables(true),
        Setting::EnableTemporaryDatabase(true),
        Setting::EnableTrace(true),
        Setting::EnableUtf16(true),
        Setting::EnableVirtualTables(true),
        Setting::EnableWriteAheadLog(true),
        Setting::LikeOperatorCaseSensitive(true),
        Setting::LikeOperatorMatchesBlob(true),
        Setting::MaxAttachedDatabases(1),
        Setting::MaxColumns(1),
        Setting::MaxExpressionDepth(1),
        Setting::MaxJsonDepth(1),
        Setting::MaxVariables(1),
        Setting::SecureDelete(true),
        Setting::TemporaryStorage(TemporaryStorage::DefaultMemory),
        Setting::TrustedSchema(true),
    ];
    let keys: Vec<_> = samples.iter().map(|s| s.key_of()).collect();
    for i in 0..keys.len() {
        for j in (i + 1)..keys.len() {
            assert_ne!(keys[i], keys[j], "variants {} and {} share a key", i, j);
        }
    }
}

#[test]
fn render_presence_symbol() {
    assert_eq!(
        pairs(Setting::Debug(true).render()),
        vec![("SQLITE_DEBUG".to_string(), None)]
    );
    assert_eq!(pairs(Setting::Debug(false).render()), vec![]);
    assert_eq!(
        pairs(Setting::EnableRtree(true).render()),
        vec![("SQLITE_ENABLE_RTREE".to_string(), None)]
    );
}

#[test]
fn render_valued_boolean() {
    assert_eq!(
        pairs(Setting::DefaultForeignKeys(true).render()),
        vec![("SQLITE_DEFAULT_FOREIGN_KEYS".to_string(), Some("1".to_string()))]
    );
    assert_eq!(
        pairs(Setting::DefaultForeignKeys(false).render()),
        vec![("SQLITE_DEFAULT_FOREIGN_KEYS".to_string(), Some("0".to_string()))]
    );
    assert_eq!(
        pairs(Setting::EnableDatabaseUri(false).render()),
        vec![("SQLITE_USE_URI".to_string(), Some("0".to_string()))]
    );
}

#[test]
fn render_inverted_boolean() {
    assert_eq!(pairs(Setting::EnableAutomaticIndex(true).render()), vec![]);
    assert_eq!(
        pairs(Setting::EnableAutomaticIndex(false).render()),
        vec![("SQLITE_OMIT_AUTOMATIC_INDEX".to_string(), None)]
    );
    assert_eq!(pairs(Setting::EnableDeprecated(true).render()), vec![]);
    assert_eq!(
        pairs(Setting::EnableDeprecated(false).render()),
        vec![("SQLITE_OMIT_DEPRECATED".to_string(), None)]
    );
    assert_eq!(
        pairs(Setting::LikeOperatorMatchesBlob(false).render()),
        vec![("SQLITE_LIKE_DOESNT_MATCH_BLOBS".to_string(), None)]
    );
    assert_eq!(pairs(Setting::LikeOperatorMatchesBlob(true).render()), vec![]);
}

#[test]
fn render_packed_composite() {
    let combos = [
        (false, false, "0"),
        (false, true, "1"),
        (true, false, "2"),
        (true, true, "3"),
    ];
    let mut seen = Vec::new();
    for (in_ddl, in_dml, expected) in combos {
        let rendered = pairs(
            Setting::DoubleQuotedStrings(DoubleQuotedStrings { in_ddl, in_dml }).render(),
        );
        assert_eq!(
            rendered,
            vec![("SQLITE_DQS".to_string(), Some(expected.to_string()))]
        );
        assert!(!seen.contains(&rendered[0].1), "packed values must not collide");
        seen.push(rendered[0].1.clone());
    }
}

#[test]
fn render_fanout_full_text_search() {
    assert_eq!(
        pairs(Setting::EnableFts3(true).render()),
        vec![
            ("SQLITE_ENABLE_FTS3".to_string(), None),
            ("SQLITE_ENABLE_FTS3_PARENTHESIS".to_string(), None),
        ]
    );
    assert_eq!(pairs(Setting::EnableFts3(false).render()), vec![]);
}

#[test]
fn render_enum_projection() {
    assert_eq!(
        pairs(Setting::Sync(Synchronous::Extra).render()),
        vec![("SQLITE_DEFAULT_SYNCHRONOUS".to_string(), Some("3".to_string()))]
    );
    assert_eq!(
        pairs(Setting::Sync(Synchronous::Off).render()),
        vec![("SQLITE_DEFAULT_SYNCHRONOUS".to_string(), Some("0".to_string()))]
    );
    assert_eq!(
        pairs(Setting::Threading(Threading::MultiThread).render()),
        vec![("SQLITE_THREADSAFE".to_string(), Some("1".to_string()))]
    );
    assert_eq!(
        pairs(Setting::Threading(Threading::Serialized).render()),
        vec![("SQLITE_THREADSAFE".to_string(), Some("2".to_string()))]
    );
    assert_eq!(
        pairs(Setting::TemporaryStorage(TemporaryStorage::AlwaysMemory).render()),
        vec![("SQLITE_TEMP_STORE".to_string(), Some("3".to_string()))]
    );
}

#[test]
fn render_decimal_values() {
    assert_eq!(
        pairs(Setting::MaxExpressionDepth(0).render()),
        vec![("SQLITE_MAX_EXPR_DEPTH".to_string(), Some("0".to_string()))]
    );
    assert_eq!(
        pairs(Setting::MaxVariables(32766).render()),
        vec![("SQLITE_MAX_VARIABLE_NUMBER".to_string(), Some("32766".to_string()))]
    );
    assert_eq!(
        pairs(Setting::MaxColumns(2000).render()),
        vec![("SQLITE_MAX_COLUMN".to_string(), Some("2000".to_string()))]
    );
    assert_eq!(
        pairs(Setting::MaxAttachedDatabases(usize::MAX).render()),
        vec![("SQLITE_MAX_ATTACHED".to_string(), Some(usize::MAX.to_string()))]
    );
}

#[test]
fn render_is_deterministic() {
    let settings = [
        Setting::Debug(true),
        Setting::EnableFts3(true),
        Setting::MaxJsonDepth(1000),
        Setting::DoubleQuotedStrings(DoubleQuotedStrings { in_ddl: true, in_dml: true }),
    ];
    for s in settings {
        assert_eq!(s.render(), s.render());
    }
}
