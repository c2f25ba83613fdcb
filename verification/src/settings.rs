//! The closed universe of SQLite compile-time options.
//!
//! Each [`Setting`] variant is one named option together with the typed value
//! it currently carries. [`SettingKey`] is the discriminant of a `Setting`:
//! it identifies *which* option a `Setting` is, independent of the payload,
//! so that a configuration can store one current value per option.

use vstd::prelude::*;

verus! {

/// Whether double-quoted string literals are accepted in DDL and in DML.
///
/// The two flags pack into a single two-bit integer when rendered; see
/// [`spec_dqs_code`](Self::spec_dqs_code).
#[derive(Clone, Copy, Debug, PartialEq, Eq, Structural)]
pub struct DoubleQuotedStrings {
    pub in_ddl: bool,
    pub in_dml: bool,
}

impl DoubleQuotedStrings {
    /// The packed integer encoding: DML contributes bit 0, DDL contributes
    /// bit 1, so (ddl, dml) maps to (false,false)=0, (false,true)=1,
    /// (true,false)=2, (true,true)=3.
    pub open spec fn spec_dqs_code(self) -> nat {
        if self.in_ddl && self.in_dml {
            3
        } else if self.in_ddl {
            2
        } else if self.in_dml {
            1
        } else {
            0
        }
    }

    /// Compute the packed integer encoding of the two flags.
    pub fn code(&self) -> (r: usize)
        ensures
            r as nat == self.spec_dqs_code(),
    {
        if self.in_ddl && self.in_dml {
            3
        } else if self.in_ddl {
            2
        } else if self.in_dml {
            1
        } else {
            0
        }
    }
}

impl Default for DoubleQuotedStrings {
    /// Both contexts reject double-quoted string literals.
    fn default() -> (r: Self)
        ensures
            r == (DoubleQuotedStrings { in_ddl: false, in_dml: false }),
    {
        DoubleQuotedStrings { in_ddl: false, in_dml: false }
    }
}

/// Where temporary tables and indices are stored.
#[derive(Clone, Copy, Debug, PartialEq, Eq, Structural)]
pub enum TemporaryStorage {
    AlwaysFilesystem,
    DefaultFilesystem,
    DefaultMemory,
    AlwaysMemory,
}

impl TemporaryStorage {
    /// The native integer encoding, ascending from `AlwaysFilesystem` = 0.
    pub open spec fn spec_code(self) -> nat {
        match self {
            TemporaryStorage::AlwaysFilesystem => 0,
            TemporaryStorage::DefaultFilesystem => 1,
            TemporaryStorage::DefaultMemory => 2,
            TemporaryStorage::AlwaysMemory => 3,
        }
    }

    /// Project this mode to its native integer encoding.
    pub fn code(&self) -> (r: usize)
        ensures
            r as nat == self.spec_code(),
    {
        match *self {
            TemporaryStorage::AlwaysFilesystem => 0,
            TemporaryStorage::DefaultFilesystem => 1,
            TemporaryStorage::DefaultMemory => 2,
            TemporaryStorage::AlwaysMemory => 3,
        }
    }
}

/// How much locking SQLite compiles in: none, per-connection, or full
/// serialization of every call.
#[derive(Clone, Copy, Debug, PartialEq, Eq, Structural)]
pub enum Threading {
    SingleThread,
    MultiThread,
    Serialized,
}

impl Threading {
    /// The native integer encoding, ascending from `SingleThread` = 0.
    pub open spec fn spec_code(self) -> nat {
        match self {
            Threading::SingleThread => 0,
            Threading::MultiThread => 1,
            Threading::Serialized => 2,
        }
    }

    /// Project this mode to its native integer encoding.
    pub fn code(&self) -> (r: usize)
        ensures
            r as nat == self.spec_code(),
    {
        match *self {
            Threading::SingleThread => 0,
            Threading::MultiThread => 1,
            Threading::Serialized => 2,
        }
    }
}

/// How aggressively SQLite flushes to durable storage, ranked
/// `Off` < `Normal` < `Full` < `Extra`.
#[derive(Clone, Copy, Debug, PartialEq, Eq, Structural)]
pub enum Synchronous {
    Off,
    Normal,
    Full,
    Extra,
}

impl Synchronous {
    /// The native integer encoding, ascending from `Off` = 0.
    pub open spec fn spec_code(self) -> nat {
        match self {
            Synchronous::Off => 0,
            Synchronous::Normal => 1,
            Synchronous::Full => 2,
            Synchronous::Extra => 3,
        }
    }

    /// Project this level to its native integer encoding.
    pub fn code(&self) -> (r: usize)
        ensures
            r as nat == self.spec_code(),
    {
        match *self {
            Synchronous::Off => 0,
            Synchronous::Normal => 1,
            Synchronous::Full => 2,
            Synchronous::Extra => 3,
        }
    }
}

/// One compile-time option for a SQLite build, with its current value.
#[derive(Clone, Copy, Debug, PartialEq, Eq, Structural)]
pub enum Setting {
    DoubleQuotedStrings(DoubleQuotedStrings),
    Threading(Threading),
    Debug(bool),
    Sync(Synchronous),
    WalSync(Synchronous),
    DefaultAutomaticIndex(bool),
    DefaultAutomaticVacuum(bool),
    DefaultForeignKeys(bool),
    DefaultMemoryStatus(bool),
    EnableAlloca(bool),
    EnableApiArmor(bool),
    EnableAuthorization(bool),
    EnableAutomaticIndex(bool),
    EnableAutomaticInitialize(bool),
    EnableAutomaticReset(bool),
    EnableBlobIo(bool),
    EnableColumnDeclaredType(bool),
    EnableColumnMetadata(bool),
    EnableDatabasePagesVirtualTable(bool),
    EnableDatabaseStatisticsVirtualTable(bool),
    EnableDatabaseUri(bool),
    EnableDeprecated(bool),
    EnableGeopoly(bool),
    EnableGetTable(bool),
    EnableFts3(bool),
    EnableFts5(bool),
    EnableJson(bool),
    EnableLoadExtension(bool),
    EnableMemoryManagement(bool),
    EnableNormalizeSql(bool),
    EnablePreUpdateHook(bool),
    EnableProgressCallback(bool),
    EnableRtree(bool),
    EnableStat4(bool),
    EnableSerialize(bool),
    EnableSession(bool),
    EnableSnapshot(bool),
    EnableSharedCache(bool),
    EnableSoundex(bool),
    EnableTclVariables(bool),
    EnableTemporaryDatabase(bool),
    EnableTrace(bool),
    EnableUtf16(bool),
    EnableVirtualTables(bool),
    EnableWriteAheadLog(bool),
    LikeOperatorCaseSensitive(bool),
    LikeOperatorMatchesBlob(bool),
    MaxAttachedDatabases(usize),
    MaxColumns(usize),
    MaxExpressionDepth(usize),
    MaxJsonDepth(usize),
    MaxVariables(usize),
    SecureDelete(bool),
    TemporaryStorage(TemporaryStorage),
    TrustedSchema(bool),
}

/// The identity of a [`Setting`] variant, independent of its payload.
///
/// Two `Setting`s of the same variant share a key regardless of the values
/// they carry, so a key can serve as the lookup and override identity of an
/// option.
#[derive(Clone, Copy, Debug, PartialEq, Eq, Hash, Structural)]
pub enum SettingKey {
    DoubleQuotedStrings,
    Threading,
    Debug,
    Sync,
    WalSync,
    DefaultAutomaticIndex,
    DefaultAutomaticVacuum,
    DefaultForeignKeys,
    DefaultMemoryStatus,
    EnableAlloca,
    EnableApiArmor,
    EnableAuthorization,
    EnableAutomaticIndex,
    EnableAutomaticInitialize,
    EnableAutomaticReset,
    EnableBlobIo,
    EnableColumnDeclaredType,
    EnableColumnMetadata,
    EnableDatabasePagesVirtualTable,
    EnableDatabaseStatisticsVirtualTable,
    EnableDatabaseUri,
    EnableDeprecated,
    EnableGeopoly,
    EnableGetTable,
    EnableFts3,
    EnableFts5,
    EnableJson,
    EnableLoadExtension,
    EnableMemoryManagement,
    EnableNormalizeSql,
    EnablePreUpdateHook,
    EnableProgressCallback,
    EnableRtree,
    EnableStat4,
    EnableSerialize,
    EnableSession,
    EnableSnapshot,
    EnableSharedCache,
    EnableSoundex,
    EnableTclVariables,
    EnableTemporaryDatabase,
    EnableTrace,
    EnableUtf16,
    EnableVirtualTables,
    EnableWriteAheadLog,
    LikeOperatorCaseSensitive,
    LikeOperatorMatchesBlob,
    MaxAttachedDatabases,
    MaxColumns,
    MaxExpressionDepth,
    MaxJsonDepth,
    MaxVariables,
    SecureDelete,
    TemporaryStorage,
    TrustedSchema,
}

/// The key of a setting: a pure projection onto the variant, ignoring the
/// payload entirely.
pub open spec fn spec_key_of(s: Setting) -> SettingKey {
    match s {
        Setting::DoubleQuotedStrings(_) => SettingKey::DoubleQuotedStrings,
        Setting::Threading(_) => SettingKey::Threading,
        Setting::Debug(_) => SettingKey::Debug,
        Setting::Sync(_) => SettingKey::Sync,
        Setting::WalSync(_) => SettingKey::WalSync,
        Setting::DefaultAutomaticIndex(_) => SettingKey::DefaultAutomaticIndex,
        Setting::DefaultAutomaticVacuum(_) => SettingKey::DefaultAutomaticVacuum,
        Setting::DefaultForeignKeys(_) => SettingKey::DefaultForeignKeys,
        Setting::DefaultMemoryStatus(_) => SettingKey::DefaultMemoryStatus,
        Setting::EnableAlloca(_) => SettingKey::EnableAlloca,
        Setting::EnableApiArmor(_) => SettingKey::EnableApiArmor,
        Setting::EnableAuthorization(_) => SettingKey::EnableAuthorization,
        Setting::EnableAutomaticIndex(_) => SettingKey::EnableAutomaticIndex,
        Setting::EnableAutomaticInitialize(_) => SettingKey::EnableAutomaticInitialize,
        Setting::EnableAutomaticReset(_) => SettingKey::EnableAutomaticReset,
        Setting::EnableBlobIo(_) => SettingKey::EnableBlobIo,
        Setting::EnableColumnDeclaredType(_) => SettingKey::EnableColumnDeclaredType,
        Setting::EnableColumnMetadata(_) => SettingKey::EnableColumnMetadata,
        Setting::EnableDatabasePagesVirtualTable(_) => SettingKey::EnableDatabasePagesVirtualTable,
        Setting::EnableDatabaseStatisticsVirtualTable(_) => SettingKey::EnableDatabaseStatisticsVirtualTable,
        Setting::EnableDatabaseUri(_) => SettingKey::EnableDatabaseUri,
        Setting::EnableDeprecated(_) => SettingKey::EnableDeprecated,
        Setting::EnableGeopoly(_) => SettingKey::EnableGeopoly,
        Setting::EnableGetTable(_) => SettingKey::EnableGetTable,
        Setting::EnableFts3(_) => SettingKey::EnableFts3,
        Setting::EnableFts5(_) => SettingKey::EnableFts5,
        Setting::EnableJson(_) => SettingKey::EnableJson,
        Setting::EnableLoadExtension(_) => SettingKey::EnableLoadExtension,
        Setting::EnableMemoryManagement(_) => SettingKey::EnableMemoryManagement,
        Setting::EnableNormalizeSql(_) => SettingKey::EnableNormalizeSql,
        Setting::EnablePreUpdateHook(_) => SettingKey::EnablePreUpdateHook,
        Setting::EnableProgressCallback(_) => SettingKey::EnableProgressCallback,
        Setting::EnableRtree(_) => SettingKey::EnableRtree,
        Setting::EnableStat4(_) => SettingKey::EnableStat4,
        Setting::EnableSerialize(_) => SettingKey::EnableSerialize,
        Setting::EnableSession(_) => SettingKey::EnableSession,
        Setting::EnableSnapshot(_) => SettingKey::EnableSnapshot,
        Setting::EnableSharedCache(_) => SettingKey::EnableSharedCache,
        Setting::EnableSoundex(_) => SettingKey::EnableSoundex,
        Setting::EnableTclVariables(_) => SettingKey::EnableTclVariables,
        Setting::EnableTemporaryDatabase(_) => SettingKey::EnableTemporaryDatabase,
        Setting::EnableTrace(_) => SettingKey::EnableTrace,
        Setting::EnableUtf16(_) => SettingKey::EnableUtf16,
        Setting::EnableVirtualTables(_) => SettingKey::EnableVirtualTables,
        Setting::EnableWriteAheadLog(_) => SettingKey::EnableWriteAheadLog,
        Setting::LikeOperatorCaseSensitive(_) => SettingKey::LikeOperatorCaseSensitive,
        Setting::LikeOperatorMatchesBlob(_) => SettingKey::LikeOperatorMatchesBlob,
        Setting::MaxAttachedDatabases(_) => SettingKey::MaxAttachedDatabases,
        Setting::MaxColumns(_) => SettingKey::MaxColumns,
        Setting::MaxExpressionDepth(_) => SettingKey::MaxExpressionDepth,
        Setting::MaxJsonDepth(_) => SettingKey::MaxJsonDepth,
        Setting::MaxVariables(_) => SettingKey::MaxVariables,
        Setting::SecureDelete(_) => SettingKey::SecureDelete,
        Setting::TemporaryStorage(_) => SettingKey::TemporaryStorage,
        Setting::TrustedSchema(_) => SettingKey::TrustedSchema,
    }
}

impl Setting {
    /// Extract this setting's [`SettingKey`]: total, and a function of the
    /// variant alone.
    pub fn key_of(&self) -> (k: SettingKey)
        ensures
            k == spec_key_of(*self),
    {
        match *self {
            Setting::DoubleQuotedStrings(_) => SettingKey::DoubleQuotedStrings,
            Setting::Threading(_) => SettingKey::Threading,
            Setting::Debug(_) => SettingKey::Debug,
            Setting::Sync(_) => SettingKey::Sync,
            Setting::WalSync(_) => SettingKey::WalSync,
            Setting::DefaultAutomaticIndex(_) => SettingKey::DefaultAutomaticIndex,
            Setting::DefaultAutomaticVacuum(_) => SettingKey::DefaultAutomaticVacuum,
            Setting::DefaultForeignKeys(_) => SettingKey::DefaultForeignKeys,
            Setting::DefaultMemoryStatus(_) => SettingKey::DefaultMemoryStatus,
            Setting::EnableAlloca(_) => SettingKey::EnableAlloca,
            Setting::EnableApiArmor(_) => SettingKey::EnableApiArmor,
            Setting::EnableAuthorization(_) => SettingKey::EnableAuthorization,
            Setting::EnableAutomaticIndex(_) => SettingKey::EnableAutomaticIndex,
            Setting::EnableAutomaticInitialize(_) => SettingKey::EnableAutomaticInitialize,
            Setting::EnableAutomaticReset(_) => SettingKey::EnableAutomaticReset,
            Setting::EnableBlobIo(_) => SettingKey::EnableBlobIo,
            Setting::EnableColumnDeclaredType(_) => SettingKey::EnableColumnDeclaredType,
            Setting::EnableColumnMetadata(_) => SettingKey::EnableColumnMetadata,
            Setting::EnableDatabasePagesVirtualTable(_) => SettingKey::EnableDatabasePagesVirtualTable,
            Setting::EnableDatabaseStatisticsVirtualTable(_) => SettingKey::EnableDatabaseStatisticsVirtualTable,
            Setting::EnableDatabaseUri(_) => SettingKey::EnableDatabaseUri,
            Setting::EnableDeprecated(_) => SettingKey::EnableDeprecated,
            Setting::EnableGeopoly(_) => SettingKey::EnableGeopoly,
            Setting::EnableGetTable(_) => SettingKey::EnableGetTable,
            Setting::EnableFts3(_) => SettingKey::EnableFts3,
            Setting::EnableFts5(_) => SettingKey::EnableFts5,
            Setting::EnableJson(_) => SettingKey::EnableJson,
            Setting::EnableLoadExtension(_) => SettingKey::EnableLoadExtension,
            Setting::EnableMemoryManagement(_) => SettingKey::EnableMemoryManagement,
            Setting::EnableNormalizeSql(_) => SettingKey::EnableNormalizeSql,
            Setting::EnablePreUpdateHook(_) => SettingKey::EnablePreUpdateHook,
            Setting::EnableProgressCallback(_) => SettingKey::EnableProgressCallback,
            Setting::EnableRtree(_) => SettingKey::EnableRtree,
            Setting::EnableStat4(_) => SettingKey::EnableStat4,
            Setting::EnableSerialize(_) => SettingKey::EnableSerialize,
            Setting::EnableSession(_) => SettingKey::EnableSession,
            Setting::EnableSnapshot(_) => SettingKey::EnableSnapshot,
            Setting::EnableSharedCache(_) => SettingKey::EnableSharedCache,
            Setting::EnableSoundex(_) => SettingKey::EnableSoundex,
            Setting::EnableTclVariables(_) => SettingKey::EnableTclVariables,
            Setting::EnableTemporaryDatabase(_) => SettingKey::EnableTemporaryDatabase,
            Setting::EnableTrace(_) => SettingKey::EnableTrace,
            Setting::EnableUtf16(_) => SettingKey::EnableUtf16,
            Setting::EnableVirtualTables(_) => SettingKey::EnableVirtualTables,
            Setting::EnableWriteAheadLog(_) => SettingKey::EnableWriteAheadLog,
            Setting::LikeOperatorCaseSensitive(_) => SettingKey::LikeOperatorCaseSensitive,
            Setting::LikeOperatorMatchesBlob(_) => SettingKey::LikeOperatorMatchesBlob,
            Setting::MaxAttachedDatabases(_) => SettingKey::MaxAttachedDatabases,
            Setting::MaxColumns(_) => SettingKey::MaxColumns,
            Setting::MaxExpressionDepth(_) => SettingKey::MaxExpressionDepth,
            Setting::MaxJsonDepth(_) => SettingKey::MaxJsonDepth,
            Setting::MaxVariables(_) => SettingKey::MaxVariables,
            Setting::SecureDelete(_) => SettingKey::SecureDelete,
            Setting::TemporaryStorage(_) => SettingKey::TemporaryStorage,
            Setting::TrustedSchema(_) => SettingKey::TrustedSchema,
        }
    }
}

/// Whether two settings are the same option — the same variant — whatever
/// values they carry.
pub open spec fn same_option(a: Setting, b: Setting) -> bool {
    ||| (a is DoubleQuotedStrings && b is DoubleQuotedStrings)
    ||| (a is Threading && b is Threading)
    ||| (a is Debug && b is Debug)
    ||| (a is Sync && b is Sync)
    ||| (a is WalSync && b is WalSync)
    ||| (a is DefaultAutomaticIndex && b is DefaultAutomaticIndex)
    ||| (a is DefaultAutomaticVacuum && b is DefaultAutomaticVacuum)
    ||| (a is DefaultForeignKeys && b is DefaultForeignKeys)
    ||| (a is DefaultMemoryStatus && b is DefaultMemoryStatus)
    ||| (a is EnableAlloca && b is EnableAlloca)
    ||| (a is EnableApiArmor && b is EnableApiArmor)
    ||| (a is EnableAuthorization && b is EnableAuthorization)
    ||| (a is EnableAutomaticIndex && b is EnableAutomaticIndex)
    ||| (a is EnableAutomaticInitialize && b is EnableAutomaticInitialize)
    ||| (a is EnableAutomaticReset && b is EnableAutomaticReset)
    ||| (a is EnableBlobIo && b is EnableBlobIo)
    ||| (a is EnableColumnDeclaredType && b is EnableColumnDeclaredType)
    ||| (a is EnableColumnMetadata && b is EnableColumnMetadata)
    ||| (a is EnableDatabasePagesVirtualTable && b is EnableDatabasePagesVirtualTable)
    ||| (a is EnableDatabaseStatisticsVirtualTable && b is EnableDatabaseStatisticsVirtualTable)
    ||| (a is EnableDatabaseUri && b is EnableDatabaseUri)
    ||| (a is EnableDeprecated && b is EnableDeprecated)
    ||| (a is EnableGeopoly && b is EnableGeopoly)
    ||| (a is EnableGetTable && b is EnableGetTable)
    ||| (a is EnableFts3 && b is EnableFts3)
    ||| (a is EnableFts5 && b is EnableFts5)
    ||| (a is EnableJson && b is EnableJson)
    ||| (a is EnableLoadExtension && b is EnableLoadExtension)
    ||| (a is EnableMemoryManagement && b is EnableMemoryManagement)
    ||| (a is EnableNormalizeSql && b is EnableNormalizeSql)
    ||| (a is EnablePreUpdateHook && b is EnablePreUpdateHook)
    ||| (a is EnableProgressCallback && b is EnableProgressCallback)
    ||| (a is EnableRtree && b is EnableRtree)
    ||| (a is EnableStat4 && b is EnableStat4)
    ||| (a is EnableSerialize && b is EnableSerialize)
    ||| (a is EnableSession && b is EnableSession)
    ||| (a is EnableSnapshot && b is EnableSnapshot)
    ||| (a is EnableSharedCache && b is EnableSharedCache)
    ||| (a is EnableSoundex && b is EnableSoundex)
    ||| (a is EnableTclVariables && b is EnableTclVariables)
    ||| (a is EnableTemporaryDatabase && b is EnableTemporaryDatabase)
    ||| (a is EnableTrace && b is EnableTrace)
    ||| (a is EnableUtf16 && b is EnableUtf16)
    ||| (a is EnableVirtualTables && b is EnableVirtualTables)
    ||| (a is EnableWriteAheadLog && b is EnableWriteAheadLog)
    ||| (a is LikeOperatorCaseSensitive && b is LikeOperatorCaseSensitive)
    ||| (a is LikeOperatorMatchesBlob && b is LikeOperatorMatchesBlob)
    ||| (a is MaxAttachedDatabases && b is MaxAttachedDatabases)
    ||| (a is MaxColumns && b is MaxColumns)
    ||| (a is MaxExpressionDepth && b is MaxExpressionDepth)
    ||| (a is MaxJsonDepth && b is MaxJsonDepth)
    ||| (a is MaxVariables && b is MaxVariables)
    ||| (a is SecureDelete && b is SecureDelete)
    ||| (a is TemporaryStorage && b is TemporaryStorage)
    ||| (a is TrustedSchema && b is TrustedSchema)
}

/// Key stability and injectivity: two settings share a key exactly when they
/// are the same variant. In particular the key never depends on the payload,
/// and distinct variants never collide.
pub proof fn lemma_key_of_stable_and_injective(a: Setting, b: Setting)
    ensures
        same_option(a, b) <==> spec_key_of(a) == spec_key_of(b),
{
}

} // verus!
