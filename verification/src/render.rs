//! Rendering settings into native preprocessor definitions.
//!
//! Each [`Setting`] renders into zero or more [`Definition`]s — a symbol name
//! together with an optional value — following one of a handful of encoding
//! rules:
//!
//! * a *presence* symbol is defined (with no value) when a flag is on, and
//!   omitted entirely when it is off;
//! * an *inverted* option uses a native "omit" symbol, so the presence pair is
//!   emitted when the semantic flag is **off**;
//! * a *valued* symbol is always defined, carrying `"1"`/`"0"` for a boolean,
//!   or the decimal rendering of an integer or enum projection;
//! * the double-quoted-string option packs two flags into one two-bit value;
//! * the full-text-search toggle fans out into two related symbols that carry
//!   the same truth value.
//!
//! Rendering is total: every constructible setting has an encoding, and the
//! encoding is a pure function of the setting's value.

use vstd::multiset::Multiset;
use vstd::prelude::*;
use vstd::string::StringExecFns;

use crate::driver::{defines_of, driver_define, files_of, out_dir_of, spec_value_view, warnings_of};
use crate::settings::{spec_key_of, DoubleQuotedStrings, Setting, SettingKey};

verus! {

/// One rendered preprocessor definition: a symbol name and, optionally, the
/// textual value it is defined to.
#[derive(Clone, Debug, PartialEq, Eq)]
pub struct Definition {
    pub symbol: String,
    pub value: Option<String>,
}

impl View for Definition {
    type V = (Seq<char>, Option<Seq<char>>);

    open spec fn view(&self) -> (Seq<char>, Option<Seq<char>>) {
        (
            self.symbol@,
            match self.value {
                Some(v) => Some(v@),
                None => None,
            },
        )
    }
}

/// The mathematical contents of a rendered definition list: each entry as a
/// (symbol, optional value) pair of character sequences.
pub open spec fn views_of(defs: Seq<Definition>) -> Seq<(Seq<char>, Option<Seq<char>>)> {
    defs.map_values(|d: Definition| d@)
}

/// A presence symbol: one valueless pair when enabled, nothing when not.
pub open spec fn spec_presence(symbol: Seq<char>, enable: bool) -> Seq<
    (Seq<char>, Option<Seq<char>>),
> {
    if enable {
        seq![(symbol, Option::<Seq<char>>::None)]
    } else {
        Seq::empty()
    }
}

/// A valued symbol: always exactly one pair carrying the given value.
pub open spec fn spec_valued(symbol: Seq<char>, value: Seq<char>) -> Seq<
    (Seq<char>, Option<Seq<char>>),
> {
    seq![(symbol, Some(value))]
}

/// The textual encoding of a boolean value.
pub open spec fn spec_bool_value(v: bool) -> Seq<char> {
    if v {
        "1"@
    } else {
        "0"@
    }
}

/// The character for one decimal digit.
pub open spec fn spec_digit(d: nat) -> char {
    if d == 0 {
        '0'
    } else if d == 1 {
        '1'
    } else if d == 2 {
        '2'
    } else if d == 3 {
        '3'
    } else if d == 4 {
        '4'
    } else if d == 5 {
        '5'
    } else if d == 6 {
        '6'
    } else if d == 7 {
        '7'
    } else if d == 8 {
        '8'
    } else {
        '9'
    }
}

/// The decimal rendering of a non-negative integer, without leading zeros
/// (except for the single digit `"0"` itself).
pub open spec fn spec_decimal(n: nat) -> Seq<char>
    decreases n,
{
    if n < 10 {
        seq![spec_digit(n)]
    } else {
        spec_decimal(n / 10).push(spec_digit(n % 10))
    }
}

/// The one-character string for a decimal digit.
fn digit_str(d: usize) -> (r: &'static str)
    requires
        d < 10,
    ensures
        r@ == seq![spec_digit(d as nat)],
{
    let r: &'static str = if d == 0 {
        "0"
    } else if d == 1 {
        "1"
    } else if d == 2 {
        "2"
    } else if d == 3 {
        "3"
    } else if d == 4 {
        "4"
    } else if d == 5 {
        "5"
    } else if d == 6 {
        "6"
    } else if d == 7 {
        "7"
    } else if d == 8 {
        "8"
    } else {
        "9"
    };
    proof {
        reveal_strlit("0");
        reveal_strlit("1");
        reveal_strlit("2");
        reveal_strlit("3");
        reveal_strlit("4");
        reveal_strlit("5");
        reveal_strlit("6");
        reveal_strlit("7");
        reveal_strlit("8");
        reveal_strlit("9");
        assert(r@ =~= seq![spec_digit(d as nat)]);
    }
    r
}

/// Render an integer as its decimal digit string.
pub fn decimal_string(n: usize) -> (r: String)
    ensures
        r@ == spec_decimal(n as nat),
    decreases n,
{
    if n < 10 {
        String::from_str(digit_str(n))
    } else {
        let mut s = decimal_string(n / 10);
        s.append(digit_str(n % 10));
        proof {
            assert(s@ =~= spec_decimal(n as nat));
        }
        s
    }
}

/// The textual encoding of a boolean value (`"1"` or `"0"`).
fn bool_value(v: bool) -> (r: &'static str)
    ensures
        r@ == spec_bool_value(v),
{
    if v {
        "1"
    } else {
        "0"
    }
}

/// Emit a presence symbol: defined without a value when `enable` holds,
/// omitted otherwise.
fn presence(symbol: &str, enable: bool) -> (r: Vec<Definition>)
    ensures
        views_of(r@) == spec_presence(symbol@, enable),
{
    let mut r: Vec<Definition> = Vec::new();
    if enable {
        r.push(Definition { symbol: symbol.to_owned(), value: None });
    }
    proof {
        assert(views_of(r@) =~= spec_presence(symbol@, enable));
    }
    r
}

/// Emit a valued symbol: always defined, carrying `value`.
fn valued(symbol: &str, value: &str) -> (r: Vec<Definition>)
    ensures
        views_of(r@) == spec_valued(symbol@, value@),
{
    let mut r: Vec<Definition> = Vec::new();
    r.push(Definition { symbol: symbol.to_owned(), value: Some(value.to_owned()) });
    proof {
        assert(views_of(r@) =~= spec_valued(symbol@, value@));
    }
    r
}

/// The exact definitions a setting renders into.
pub open spec fn spec_render(s: Setting) -> Seq<(Seq<char>, Option<Seq<char>>)> {
    match s {
        Setting::DoubleQuotedStrings(d) => spec_valued(
            "SQLITE_DQS"@,
            spec_decimal(d.spec_dqs_code()),
        ),
        Setting::Threading(t) => spec_valued("SQLITE_THREADSAFE"@, spec_decimal(t.spec_code())),
        Setting::Debug(e) => spec_presence("SQLITE_DEBUG"@, e),
        Setting::Sync(s) => spec_valued("SQLITE_DEFAULT_SYNCHRONOUS"@, spec_decimal(s.spec_code())),
        Setting::WalSync(s) => spec_valued(
            "SQLITE_DEFAULT_WAL_SYNCHRONOUS"@,
            spec_decimal(s.spec_code()),
        ),
        Setting::DefaultAutomaticIndex(e) => spec_valued(
            "SQLITE_DEFAULT_AUTOMATIC_INDEX"@,
            spec_bool_value(e),
        ),
        Setting::DefaultAutomaticVacuum(e) => spec_valued(
            "SQLITE_DEFAULT_AUTOVACUUM"@,
            spec_bool_value(e),
        ),
        Setting::DefaultForeignKeys(e) => spec_valued(
            "SQLITE_DEFAULT_FOREIGN_KEYS"@,
            spec_bool_value(e),
        ),
        Setting::DefaultMemoryStatus(e) => spec_valued(
            "SQLITE_DEFAULT_MEMSTATUS"@,
            spec_bool_value(e),
        ),
        Setting::EnableAlloca(e) => spec_presence("SQLITE_USE_ALLOCA"@, e),
        Setting::EnableApiArmor(e) => spec_presence("SQLITE_ENABLE_API_ARMOR"@, e),
        Setting::EnableAuthorization(e) => spec_presence("SQLITE_OMIT_AUTHORIZATION"@, !e),
        Setting::EnableAutomaticIndex(e) => spec_presence("SQLITE_OMIT_AUTOMATIC_INDEX"@, !e),
        Setting::EnableAutomaticInitialize(e) => spec_presence("SQLITE_OMIT_AUTOINIT"@, !e),
        Setting::EnableAutomaticReset(e) => spec_presence("SQLITE_OMIT_AUTORESET"@, !e),
        Setting::EnableBlobIo(e) => spec_presence("SQLITE_OMIT_INCRBLOB"@, !e),
        Setting::EnableColumnDeclaredType(e) => spec_presence("SQLITE_OMIT_DECLTYPE"@, !e),
        Setting::EnableColumnMetadata(e) => spec_presence("SQLITE_ENABLE_COLUMN_METADATA"@, e),
        Setting::EnableDatabasePagesVirtualTable(e) => spec_presence(
            "SQLITE_ENABLE_DBPAGE_VTAB"@,
            e,
        ),
        Setting::EnableDatabaseStatisticsVirtualTable(e) => spec_presence(
            "SQLITE_ENABLE_DBSTAT_VTAB"@,
            e,
        ),
        Setting::EnableDatabaseUri(e) => spec_valued("SQLITE_USE_URI"@, spec_bool_value(e)),
        Setting::EnableDeprecated(e) => spec_presence("SQLITE_OMIT_DEPRECATED"@, !e),
        Setting::EnableGeopoly(e) => spec_presence("SQLITE_ENABLE_GEOPOLY"@, e),
        Setting::EnableGetTable(e) => spec_presence("SQLITE_OMIT_GET_TABLE"@, !e),
        Setting::EnableFts3(e) => spec_presence("SQLITE_ENABLE_FTS3"@, e) + spec_presence(
            "SQLITE_ENABLE_FTS3_PARENTHESIS"@,
            e,
        ),
        Setting::EnableFts5(e) => spec_presence("SQLITE_ENABLE_FTS5"@, e),
        Setting::EnableJson(e) => spec_presence("SQLITE_OMIT_JSON"@, !e),
        Setting::EnableLoadExtension(e) => spec_presence("SQLITE_OMIT_LOAD_EXTENSION"@, !e),
        Setting::EnableMemoryManagement(e) => spec_presence("SQLITE_ENABLE_MEMORY_MANAGEMENT"@, e),
        Setting::EnableNormalizeSql(e) => spec_presence("SQLITE_ENABLE_NORMALIZE"@, e),
        Setting::EnablePreUpdateHook(e) => spec_presence("SQLITE_ENABLE_PREUPDATE_HOOK"@, e),
        Setting::EnableProgressCallback(e) => spec_presence("SQLITE_OMIT_PROGRESS_CALLBACK"@, !e),
        Setting::EnableRtree(e) => spec_presence("SQLITE_ENABLE_RTREE"@, e),
        Setting::EnableStat4(e) => spec_presence("SQLITE_ENABLE_STAT4"@, e),
        Setting::EnableSerialize(e) => spec_presence("SQLITE_OMIT_DESERIALIZE"@, !e),
        Setting::EnableSession(e) => spec_presence("SQLITE_ENABLE_SESSION"@, e),
        Setting::EnableSnapshot(e) => spec_presence("SQLITE_ENABLE_SNAPSHOT"@, e),
        Setting::EnableSharedCache(e) => spec_presence("SQLITE_OMIT_SHARED_CACHE"@, !e),
        Setting::EnableSoundex(e) => spec_presence("SQLITE_SOUNDEX"@, e),
        Setting::EnableTclVariables(e) => spec_presence("SQLITE_OMIT_TCL_VARIABLE"@, !e),
        Setting::EnableTemporaryDatabase(e) => spec_presence("SQLITE_OMIT_TEMPDB"@, !e),
        Setting::EnableTrace(e) => spec_presence("SQLITE_OMIT_TRACE"@, !e),
        Setting::EnableUtf16(e) => spec_presence("SQLITE_OMIT_UTF16"@, !e),
        Setting::EnableVirtualTables(e) => spec_presence("SQLITE_OMIT_VIRTUALTABLE"@, !e),
        Setting::EnableWriteAheadLog(e) => spec_presence("SQLITE_OMIT_WAL"@, !e),
        Setting::LikeOperatorCaseSensitive(e) => spec_presence("SQLITE_CASE_SENSITIVE_LIKE"@, e),
        Setting::LikeOperatorMatchesBlob(e) => spec_presence(
            "SQLITE_LIKE_DOESNT_MATCH_BLOBS"@,
            !e,
        ),
        Setting::MaxAttachedDatabases(max) => spec_valued(
            "SQLITE_MAX_ATTACHED"@,
            spec_decimal(max as nat),
        ),
        Setting::MaxColumns(max) => spec_valued("SQLITE_MAX_COLUMN"@, spec_decimal(max as nat)),
        Setting::MaxExpressionDepth(max) => spec_valued(
            "SQLITE_MAX_EXPR_DEPTH"@,
            spec_decimal(max as nat),
        ),
        Setting::MaxJsonDepth(max) => spec_valued(
            "SQLITE_JSON_MAX_DEPTH"@,
            spec_decimal(max as nat),
        ),
        Setting::MaxVariables(max) => spec_valued(
            "SQLITE_MAX_VARIABLE_NUMBER"@,
            spec_decimal(max as nat),
        ),
        Setting::SecureDelete(e) => spec_presence("SQLITE_SECURE_DELETE"@, e),
        Setting::TemporaryStorage(t) => spec_valued(
            "SQLITE_TEMP_STORE"@,
            spec_decimal(t.spec_code()),
        ),
        Setting::TrustedSchema(e) => spec_valued("SQLITE_TRUSTED_SCHEMA"@, spec_bool_value(e)),
    }
}

impl Setting {
    /// Render this setting into the exact preprocessor definitions it selects.
    ///
    /// Total over every constructible setting, and deterministic: the result
    /// is [`spec_render`] of the setting, a pure function of its value.
    pub fn render(&self) -> (r: Vec<Definition>)
        ensures
            views_of(r@) == spec_render(*self),
    {
        match *self {
            Setting::DoubleQuotedStrings(d) => {
                let v = decimal_string(d.code());
                valued("SQLITE_DQS", v.as_str())
            },
            Setting::Threading(t) => {
                let v = decimal_string(t.code());
                valued("SQLITE_THREADSAFE", v.as_str())
            },
            Setting::Debug(e) => presence("SQLITE_DEBUG", e),
            Setting::Sync(s) => {
                let v = decimal_string(s.code());
                valued("SQLITE_DEFAULT_SYNCHRONOUS", v.as_str())
            },
            Setting::WalSync(s) => {
                let v = decimal_string(s.code());
                valued("SQLITE_DEFAULT_WAL_SYNCHRONOUS", v.as_str())
            },
            Setting::DefaultAutomaticIndex(e) => valued(
                "SQLITE_DEFAULT_AUTOMATIC_INDEX",
                bool_value(e),
            ),
            Setting::DefaultAutomaticVacuum(e) => valued("SQLITE_DEFAULT_AUTOVACUUM", bool_value(e)),
            Setting::DefaultForeignKeys(e) => valued("SQLITE_DEFAULT_FOREIGN_KEYS", bool_value(e)),
            Setting::DefaultMemoryStatus(e) => valued("SQLITE_DEFAULT_MEMSTATUS", bool_value(e)),
            Setting::EnableAlloca(e) => presence("SQLITE_USE_ALLOCA", e),
            Setting::EnableApiArmor(e) => presence("SQLITE_ENABLE_API_ARMOR", e),
            Setting::EnableAuthorization(e) => presence("SQLITE_OMIT_AUTHORIZATION", !e),
            Setting::EnableAutomaticIndex(e) => presence("SQLITE_OMIT_AUTOMATIC_INDEX", !e),
            Setting::EnableAutomaticInitialize(e) => presence("SQLITE_OMIT_AUTOINIT", !e),
            Setting::EnableAutomaticReset(e) => presence("SQLITE_OMIT_AUTORESET", !e),
            Setting::EnableBlobIo(e) => presence("SQLITE_OMIT_INCRBLOB", !e),
            Setting::EnableColumnDeclaredType(e) => presence("SQLITE_OMIT_DECLTYPE", !e),
            Setting::EnableColumnMetadata(e) => presence("SQLITE_ENABLE_COLUMN_METADATA", e),
            Setting::EnableDatabasePagesVirtualTable(e) => presence("SQLITE_ENABLE_DBPAGE_VTAB", e),
            Setting::EnableDatabaseStatisticsVirtualTable(e) => presence(
                "SQLITE_ENABLE_DBSTAT_VTAB",
                e,
            ),
            Setting::EnableDatabaseUri(e) => valued("SQLITE_USE_URI", bool_value(e)),
            Setting::EnableDeprecated(e) => presence("SQLITE_OMIT_DEPRECATED", !e),
            Setting::EnableGeopoly(e) => presence("SQLITE_ENABLE_GEOPOLY", e),
            Setting::EnableGetTable(e) => presence("SQLITE_OMIT_GET_TABLE", !e),
            Setting::EnableFts3(e) => {
                let mut r = presence("SQLITE_ENABLE_FTS3", e);
                let mut tail = presence("SQLITE_ENABLE_FTS3_PARENTHESIS", e);
                r.append(&mut tail);
                proof {
                    assert(views_of(r@) =~= spec_render(*self));
                }
                r
            },
            Setting::EnableFts5(e) => presence("SQLITE_ENABLE_FTS5", e),
            Setting::EnableJson(e) => presence("SQLITE_OMIT_JSON", !e),
            Setting::EnableLoadExtension(e) => presence("SQLITE_OMIT_LOAD_EXTENSION", !e),
            Setting::EnableMemoryManagement(e) => presence("SQLITE_ENABLE_MEMORY_MANAGEMENT", e),
            Setting::EnableNormalizeSql(e) => presence("SQLITE_ENABLE_NORMALIZE", e),
            Setting::EnablePreUpdateHook(e) => presence("SQLITE_ENABLE_PREUPDATE_HOOK", e),
            Setting::EnableProgressCallback(e) => presence("SQLITE_OMIT_PROGRESS_CALLBACK", !e),
            Setting::EnableRtree(e) => presence("SQLITE_ENABLE_RTREE", e),
            Setting::EnableStat4(e) => presence("SQLITE_ENABLE_STAT4", e),
            Setting::EnableSerialize(e) => presence("SQLITE_OMIT_DESERIALIZE", !e),
            Setting::EnableSession(e) => presence("SQLITE_ENABLE_SESSION", e),
            Setting::EnableSnapshot(e) => presence("SQLITE_ENABLE_SNAPSHOT", e),
            Setting::EnableSharedCache(e) => presence("SQLITE_OMIT_SHARED_CACHE", !e),
            Setting::EnableSoundex(e) => presence("SQLITE_SOUNDEX", e),
            Setting::EnableTclVariables(e) => presence("SQLITE_OMIT_TCL_VARIABLE", !e),
            Setting::EnableTemporaryDatabase(e) => presence("SQLITE_OMIT_TEMPDB", !e),
            Setting::EnableTrace(e) => presence("SQLITE_OMIT_TRACE", !e),
            Setting::EnableUtf16(e) => presence("SQLITE_OMIT_UTF16", !e),
            Setting::EnableVirtualTables(e) => presence("SQLITE_OMIT_VIRTUALTABLE", !e),
            Setting::EnableWriteAheadLog(e) => presence("SQLITE_OMIT_WAL", !e),
            Setting::LikeOperatorCaseSensitive(e) => presence("SQLITE_CASE_SENSITIVE_LIKE", e),
            Setting::LikeOperatorMatchesBlob(e) => presence("SQLITE_LIKE_DOESNT_MATCH_BLOBS", !e),
            Setting::MaxAttachedDatabases(max) => {
                let v = decimal_string(max);
                valued("SQLITE_MAX_ATTACHED", v.as_str())
            },
            Setting::MaxColumns(max) => {
                let v = decimal_string(max);
                valued("SQLITE_MAX_COLUMN", v.as_str())
            },
            Setting::MaxExpressionDepth(max) => {
                let v = decimal_string(max);
                valued("SQLITE_MAX_EXPR_DEPTH", v.as_str())
            },
            Setting::MaxJsonDepth(max) => {
                let v = decimal_string(max);
                valued("SQLITE_JSON_MAX_DEPTH", v.as_str())
            },
            Setting::MaxVariables(max) => {
                let v = decimal_string(max);
                valued("SQLITE_MAX_VARIABLE_NUMBER", v.as_str())
            },
            Setting::SecureDelete(e) => presence("SQLITE_SECURE_DELETE", e),
            Setting::TemporaryStorage(t) => {
                let v = decimal_string(t.code());
                valued("SQLITE_TEMP_STORE", v.as_str())
            },
            Setting::TrustedSchema(e) => valued("SQLITE_TRUSTED_SCHEMA", bool_value(e)),
        }
    }
}

/// The definitions a whole sequence of settings renders into, taken
/// together as a multiset: one rendered pair per setting and rule, with no
/// order imposed.
pub open spec fn rendered_of(s: Seq<Setting>) -> Multiset<(Seq<char>, Option<Seq<char>>)>
    decreases s.len(),
{
    if s.len() == 0 {
        Multiset::empty()
    } else {
        rendered_of(s.drop_last()).add(spec_render(s.last()).to_multiset())
    }
}

impl Setting {
    /// Feed every definition this setting renders into the native driver:
    /// afterwards the driver holds exactly the old definitions plus this
    /// setting's rendered pairs.
    pub fn apply(&self, b: &mut cc::Build)
        ensures
            defines_of(*final(b)) == defines_of(*old(b)).add(spec_render(*self).to_multiset()),
            files_of(*final(b)) == files_of(*old(b)),
            warnings_of(*final(b)) == warnings_of(*old(b)),
            out_dir_of(*final(b)) == out_dir_of(*old(b)),
    {
        let defs = self.render();
        let ghost rendered = spec_render(*self);
        let n = defs.len();
        let mut i: usize = 0;
        proof {
            broadcast use vstd::seq_lib::group_to_multiset_ensures;

            assert(rendered.take(0).to_multiset() =~= Multiset::<
                (Seq<char>, Option<Seq<char>>),
            >::empty()) by {
                rendered.take(0).to_multiset_ensures();
            }
            assert(defines_of(*b) =~= defines_of(*b).add(rendered.take(0).to_multiset()));
        }
        while i < n
            invariant
                n == defs@.len(),
                0 <= i <= n,
                views_of(defs@) == rendered,
                rendered == spec_render(*self),
                defines_of(*b) == defines_of(*old(b)).add(rendered.take(i as int).to_multiset()),
                files_of(*b) == files_of(*old(b)),
                warnings_of(*b) == warnings_of(*old(b)),
                out_dir_of(*b) == out_dir_of(*old(b)),
            decreases n - i,
        {
            let d = &defs[i];
            let value: Option<&str> = match &d.value {
                Some(v) => Some(v.as_str()),
                None => None,
            };
            driver_define(b, d.symbol.as_str(), value);
            proof {
                broadcast use vstd::seq_lib::group_to_multiset_ensures;

                assert((d.symbol@, spec_value_view(value)) == rendered[i as int]);
                assert(rendered.take(i + 1) =~= rendered.take(i as int).push(
                    rendered[i as int],
                ));
                assert(defines_of(*b) =~= defines_of(*old(b)).add(
                    rendered.take(i + 1).to_multiset(),
                ));
            }
            i += 1;
        }
        proof {
            assert(rendered.take(n as int) =~= rendered);
        }
    }
}

/// Every decimal rendering has at least one digit, and integers of ten or
/// more have at least two.
pub proof fn lemma_spec_decimal_len(n: nat)
    ensures
        spec_decimal(n).len() >= 1,
        n >= 10 ==> spec_decimal(n).len() >= 2,
    decreases n,
{
    if n >= 10 {
        lemma_spec_decimal_len(n / 10);
    }
}

/// A nonzero integer never shares the decimal rendering of zero.
pub proof fn lemma_spec_decimal_nonzero(n: nat)
    requires
        n != 0,
    ensures
        spec_decimal(n) != spec_decimal(0),
{
    if n < 10 {
        assert(spec_digit(n) != spec_digit(0));
        if spec_decimal(n) == spec_decimal(0) {
            assert(spec_decimal(n)[0] == spec_decimal(0)[0]);
            assert(false);
        }
    } else {
        lemma_spec_decimal_len(n);
        assert(spec_decimal(0).len() == 1);
    }
}

/// A pair that no entry of a sequence renders does not occur in the
/// sequence's rendered multiset at all.
pub proof fn lemma_rendered_of_absent(s: Seq<Setting>, q: (Seq<char>, Option<Seq<char>>))
    requires
        forall|i: int| 0 <= i < s.len() ==> !spec_render(#[trigger] s[i]).contains(q),
    ensures
        rendered_of(s).count(q) == 0,
    decreases s.len(),
{
    broadcast use vstd::seq_lib::group_to_multiset_ensures;

    if s.len() > 0 {
        assert(forall|i: int|
            0 <= i < s.drop_last().len() ==> !spec_render(#[trigger] s.drop_last()[i]).contains(
                q,
            ));
        lemma_rendered_of_absent(s.drop_last(), q);
        assert(!spec_render(s[s.len() - 1]).contains(q));
        assert(spec_render(s.last()).to_multiset().count(q) == 0);
    }
}

/// Only the maximum-expression-depth option renders the
/// `SQLITE_MAX_EXPR_DEPTH` symbol: a setting with any other key never
/// emits a pair carrying it.
pub proof fn lemma_depth_symbol_exclusive(y: Setting, q: (Seq<char>, Option<Seq<char>>))
    requires
        spec_key_of(y) != SettingKey::MaxExpressionDepth,
        q.0 == "SQLITE_MAX_EXPR_DEPTH"@,
    ensures
        !spec_render(y).contains(q),
{
        reveal_strlit("SQLITE_MAX_EXPR_DEPTH");
        reveal_strlit("SQLITE_DQS");
        reveal_strlit("SQLITE_THREADSAFE");
        reveal_strlit("SQLITE_DEBUG");
        reveal_strlit("SQLITE_DEFAULT_SYNCHRONOUS");
        reveal_strlit("SQLITE_DEFAULT_WAL_SYNCHRONOUS");
        reveal_strlit("SQLITE_DEFAULT_AUTOMATIC_INDEX");
        reveal_strlit("SQLITE_DEFAULT_AUTOVACUUM");
        reveal_strlit("SQLITE_DEFAULT_FOREIGN_KEYS");
        reveal_strlit("SQLITE_DEFAULT_MEMSTATUS");
        reveal_strlit("SQLITE_USE_ALLOCA");
        reveal_strlit("SQLITE_ENABLE_API_ARMOR");
        reveal_strlit("SQLITE_OMIT_AUTHORIZATION");
        reveal_strlit("SQLITE_OMIT_AUTOMATIC_INDEX");
        reveal_strlit("SQLITE_OMIT_AUTOINIT");
        reveal_strlit("SQLITE_OMIT_AUTORESET");
        reveal_strlit("SQLITE_OMIT_INCRBLOB");
        reveal_strlit("SQLITE_OMIT_DECLTYPE");
        reveal_strlit("SQLITE_ENABLE_COLUMN_METADATA");
        reveal_strlit("SQLITE_ENABLE_DBPAGE_VTAB");
        reveal_strlit("SQLITE_ENABLE_DBSTAT_VTAB");
        reveal_strlit("SQLITE_USE_URI");
        reveal_strlit("SQLITE_OMIT_DEPRECATED");
        reveal_strlit("SQLITE_ENABLE_GEOPOLY");
        reveal_strlit("SQLITE_OMIT_GET_TABLE");
        reveal_strlit("SQLITE_ENABLE_FTS3");
        reveal_strlit("SQLITE_ENABLE_FTS3_PARENTHESIS");
        reveal_strlit("SQLITE_ENABLE_FTS5");
        reveal_strlit("SQLITE_OMIT_JSON");
        reveal_strlit("SQLITE_OMIT_LOAD_EXTENSION");
        reveal_strlit("SQLITE_ENABLE_MEMORY_MANAGEMENT");
        reveal_strlit("SQLITE_ENABLE_NORMALIZE");
        reveal_strlit("SQLITE_ENABLE_PREUPDATE_HOOK");
        reveal_strlit("SQLITE_OMIT_PROGRESS_CALLBACK");
        reveal_strlit("SQLITE_ENABLE_RTREE");
        reveal_strlit("SQLITE_ENABLE_STAT4");
        reveal_strlit("SQLITE_OMIT_DESERIALIZE");
        reveal_strlit("SQLITE_ENABLE_SESSION");
        reveal_strlit("SQLITE_ENABLE_SNAPSHOT");
        reveal_strlit("SQLITE_OMIT_SHARED_CACHE");
        reveal_strlit("SQLITE_SOUNDEX");
        reveal_strlit("SQLITE_OMIT_TCL_VARIABLE");
        reveal_strlit("SQLITE_OMIT_TEMPDB");
        reveal_strlit("SQLITE_OMIT_TRACE");
        reveal_strlit("SQLITE_OMIT_UTF16");
        reveal_strlit("SQLITE_OMIT_VIRTUALTABLE");
        reveal_strlit("SQLITE_OMIT_WAL");
        reveal_strlit("SQLITE_CASE_SENSITIVE_LIKE");
        reveal_strlit("SQLITE_LIKE_DOESNT_MATCH_BLOBS");
        reveal_strlit("SQLITE_MAX_ATTACHED");
        reveal_strlit("SQLITE_MAX_COLUMN");
        reveal_strlit("SQLITE_JSON_MAX_DEPTH");
        reveal_strlit("SQLITE_MAX_VARIABLE_NUMBER");
        reveal_strlit("SQLITE_SECURE_DELETE");
        reveal_strlit("SQLITE_TEMP_STORE");
        reveal_strlit("SQLITE_TRUSTED_SCHEMA");
    assert("SQLITE_MAX_EXPR_DEPTH"@.len() == 21);
    assert("SQLITE_DQS"@.len() == 10);
    assert("SQLITE_THREADSAFE"@.len() == 17);
    assert("SQLITE_DEBUG"@.len() == 12);
    assert("SQLITE_DEFAULT_SYNCHRONOUS"@.len() == 26);
    assert("SQLITE_DEFAULT_WAL_SYNCHRONOUS"@.len() == 30);
    assert("SQLITE_DEFAULT_AUTOMATIC_INDEX"@.len() == 30);
    assert("SQLITE_DEFAULT_AUTOVACUUM"@.len() == 25);
    assert("SQLITE_DEFAULT_FOREIGN_KEYS"@.len() == 27);
    assert("SQLITE_DEFAULT_MEMSTATUS"@.len() == 24);
    assert("SQLITE_USE_ALLOCA"@.len() == 17);
    assert("SQLITE_ENABLE_API_ARMOR"@.len() == 23);
    assert("SQLITE_OMIT_AUTHORIZATION"@.len() == 25);
    assert("SQLITE_OMIT_AUTOMATIC_INDEX"@.len() == 27);
    assert("SQLITE_OMIT_AUTOINIT"@.len() == 20);
    assert("SQLITE_OMIT_AUTORESET"@.len() == 21);
    assert("SQLITE_OMIT_AUTORESET"@[7] == 'O');
    assert("SQLITE_OMIT_INCRBLOB"@.len() == 20);
    assert("SQLITE_OMIT_DECLTYPE"@.len() == 20);
    assert("SQLITE_ENABLE_COLUMN_METADATA"@.len() == 29);
    assert("SQLITE_ENABLE_DBPAGE_VTAB"@.len() == 25);
    assert("SQLITE_ENABLE_DBSTAT_VTAB"@.len() == 25);
    assert("SQLITE_USE_URI"@.len() == 14);
    assert("SQLITE_OMIT_DEPRECATED"@.len() == 22);
    assert("SQLITE_ENABLE_GEOPOLY"@.len() == 21);
    assert("SQLITE_ENABLE_GEOPOLY"@[7] == 'E');
    assert("SQLITE_OMIT_GET_TABLE"@.len() == 21);
    assert("SQLITE_OMIT_GET_TABLE"@[7] == 'O');
    assert("SQLITE_ENABLE_FTS3"@.len() == 18);
    assert("SQLITE_ENABLE_FTS3_PARENTHESIS"@.len() == 30);
    assert("SQLITE_ENABLE_FTS5"@.len() == 18);
    assert("SQLITE_OMIT_JSON"@.len() == 16);
    assert("SQLITE_OMIT_LOAD_EXTENSION"@.len() == 26);
    assert("SQLITE_ENABLE_MEMORY_MANAGEMENT"@.len() == 31);
    assert("SQLITE_ENABLE_NORMALIZE"@.len() == 23);
    assert("SQLITE_ENABLE_PREUPDATE_HOOK"@.len() == 28);
    assert("SQLITE_OMIT_PROGRESS_CALLBACK"@.len() == 29);
    assert("SQLITE_ENABLE_RTREE"@.len() == 19);
    assert("SQLITE_ENABLE_STAT4"@.len() == 19);
    assert("SQLITE_OMIT_DESERIALIZE"@.len() == 23);
    assert("SQLITE_ENABLE_SESSION"@.len() == 21);
    assert("SQLITE_ENABLE_SESSION"@[7] == 'E');
    assert("SQLITE_ENABLE_SNAPSHOT"@.len() == 22);
    assert("SQLITE_OMIT_SHARED_CACHE"@.len() == 24);
    assert("SQLITE_SOUNDEX"@.len() == 14);
    assert("SQLITE_OMIT_TCL_VARIABLE"@.len() == 24);
    assert("SQLITE_OMIT_TEMPDB"@.len() == 18);
    assert("SQLITE_OMIT_TRACE"@.len() == 17);
    assert("SQLITE_OMIT_UTF16"@.len() == 17);
    assert("SQLITE_OMIT_VIRTUALTABLE"@.len() == 24);
    assert("SQLITE_OMIT_WAL"@.len() == 15);
    assert("SQLITE_CASE_SENSITIVE_LIKE"@.len() == 26);
    assert("SQLITE_LIKE_DOESNT_MATCH_BLOBS"@.len() == 30);
    assert("SQLITE_MAX_ATTACHED"@.len() == 19);
    assert("SQLITE_MAX_COLUMN"@.len() == 17);
    assert("SQLITE_JSON_MAX_DEPTH"@.len() == 21);
    assert("SQLITE_JSON_MAX_DEPTH"@[7] == 'J');
    assert("SQLITE_MAX_VARIABLE_NUMBER"@.len() == 26);
    assert("SQLITE_SECURE_DELETE"@.len() == 20);
    assert("SQLITE_TEMP_STORE"@.len() == 17);
    assert("SQLITE_TRUSTED_SCHEMA"@.len() == 21);
    assert("SQLITE_TRUSTED_SCHEMA"@[7] == 'T');
    assert("SQLITE_MAX_EXPR_DEPTH"@[7] == 'M');
    let r = spec_render(y);
    if r.contains(q) {
        let i = choose|i: int| 0 <= i < r.len() && r[i] == q;
        assert(r[i].0 == q.0);
        match y {
            Setting::DoubleQuotedStrings(_) => {
                assert(r[i].0 == "SQLITE_DQS"@);
            },
            Setting::Threading(_) => {
                assert(r[i].0 == "SQLITE_THREADSAFE"@);
            },
            Setting::Debug(_) => {
                assert(r[i].0 == "SQLITE_DEBUG"@);
            },
            Setting::Sync(_) => {
                assert(r[i].0 == "SQLITE_DEFAULT_SYNCHRONOUS"@);
            },
            Setting::WalSync(_) => {
                assert(r[i].0 == "SQLITE_DEFAULT_WAL_SYNCHRONOUS"@);
            },
            Setting::DefaultAutomaticIndex(_) => {
                assert(r[i].0 == "SQLITE_DEFAULT_AUTOMATIC_INDEX"@);
            },
            Setting::DefaultAutomaticVacuum(_) => {
                assert(r[i].0 == "SQLITE_DEFAULT_AUTOVACUUM"@);
            },
            Setting::DefaultForeignKeys(_) => {
                assert(r[i].0 == "SQLITE_DEFAULT_FOREIGN_KEYS"@);
            },
            Setting::DefaultMemoryStatus(_) => {
                assert(r[i].0 == "SQLITE_DEFAULT_MEMSTATUS"@);
            },
            Setting::EnableAlloca(_) => {
                assert(r[i].0 == "SQLITE_USE_ALLOCA"@);
            },
            Setting::EnableApiArmor(_) => {
                assert(r[i].0 == "SQLITE_ENABLE_API_ARMOR"@);
            },
            Setting::EnableAuthorization(_) => {
                assert(r[i].0 == "SQLITE_OMIT_AUTHORIZATION"@);
            },
            Setting::EnableAutomaticIndex(_) => {
                assert(r[i].0 == "SQLITE_OMIT_AUTOMATIC_INDEX"@);
            },
            Setting::EnableAutomaticInitialize(_) => {
                assert(r[i].0 == "SQLITE_OMIT_AUTOINIT"@);
            },
            Setting::EnableAutomaticReset(_) => {
                assert(r[i].0 == "SQLITE_OMIT_AUTORESET"@);
            },
            Setting::EnableBlobIo(_) => {
                assert(r[i].0 == "SQLITE_OMIT_INCRBLOB"@);
            },
            Setting::EnableColumnDeclaredType(_) => {
                assert(r[i].0 == "SQLITE_OMIT_DECLTYPE"@);
            },
            Setting::EnableColumnMetadata(_) => {
                assert(r[i].0 == "SQLITE_ENABLE_COLUMN_METADATA"@);
            },
            Setting::EnableDatabasePagesVirtualTable(_) => {
                assert(r[i].0 == "SQLITE_ENABLE_DBPAGE_VTAB"@);
            },
            Setting::EnableDatabaseStatisticsVirtualTable(_) => {
                assert(r[i].0 == "SQLITE_ENABLE_DBSTAT_VTAB"@);
            },
            Setting::EnableDatabaseUri(_) => {
                assert(r[i].0 == "SQLITE_USE_URI"@);
            },
            Setting::EnableDeprecated(_) => {
                assert(r[i].0 == "SQLITE_OMIT_DEPRECATED"@);
            },
            Setting::EnableGeopoly(_) => {
                assert(r[i].0 == "SQLITE_ENABLE_GEOPOLY"@);
            },
            Setting::EnableGetTable(_) => {
                assert(r[i].0 == "SQLITE_OMIT_GET_TABLE"@);
            },
            Setting::EnableFts3(_) => {
                assert(r[i].0 == "SQLITE_ENABLE_FTS3"@ || r[i].0 == "SQLITE_ENABLE_FTS3_PARENTHESIS"@);
            },
            Setting::EnableFts5(_) => {
                assert(r[i].0 == "SQLITE_ENABLE_FTS5"@);
            },
            Setting::EnableJson(_) => {
                assert(r[i].0 == "SQLITE_OMIT_JSON"@);
            },
            Setting::EnableLoadExtension(_) => {
                assert(r[i].0 == "SQLITE_OMIT_LOAD_EXTENSION"@);
            },
            Setting::EnableMemoryManagement(_) => {
                assert(r[i].0 == "SQLITE_ENABLE_MEMORY_MANAGEMENT"@);
            },
            Setting::EnableNormalizeSql(_) => {
                assert(r[i].0 == "SQLITE_ENABLE_NORMALIZE"@);
            },
            Setting::EnablePreUpdateHook(_) => {
                assert(r[i].0 == "SQLITE_ENABLE_PREUPDATE_HOOK"@);
            },
            Setting::EnableProgressCallback(_) => {
                assert(r[i].0 == "SQLITE_OMIT_PROGRESS_CALLBACK"@);
            },
            Setting::EnableRtree(_) => {
                assert(r[i].0 == "SQLITE_ENABLE_RTREE"@);
            },
            Setting::EnableStat4(_) => {
                assert(r[i].0 == "SQLITE_ENABLE_STAT4"@);
            },
            Setting::EnableSerialize(_) => {
                assert(r[i].0 == "SQLITE_OMIT_DESERIALIZE"@);
            },
            Setting::EnableSession(_) => {
                assert(r[i].0 == "SQLITE_ENABLE_SESSION"@);
            },
            Setting::EnableSnapshot(_) => {
                assert(r[i].0 == "SQLITE_ENABLE_SNAPSHOT"@);
            },
            Setting::EnableSharedCache(_) => {
                assert(r[i].0 == "SQLITE_OMIT_SHARED_CACHE"@);
            },
            Setting::EnableSoundex(_) => {
                assert(r[i].0 == "SQLITE_SOUNDEX"@);
            },
            Setting::EnableTclVariables(_) => {
                assert(r[i].0 == "SQLITE_OMIT_TCL_VARIABLE"@);
            },
            Setting::EnableTemporaryDatabase(_) => {
                assert(r[i].0 == "SQLITE_OMIT_TEMPDB"@);
            },
            Setting::EnableTrace(_) => {
                assert(r[i].0 == "SQLITE_OMIT_TRACE"@);
            },
            Setting::EnableUtf16(_) => {
                assert(r[i].0 == "SQLITE_OMIT_UTF16"@);
            },
            Setting::EnableVirtualTables(_) => {
                assert(r[i].0 == "SQLITE_OMIT_VIRTUALTABLE"@);
            },
            Setting::EnableWriteAheadLog(_) => {
                assert(r[i].0 == "SQLITE_OMIT_WAL"@);
            },
            Setting::LikeOperatorCaseSensitive(_) => {
                assert(r[i].0 == "SQLITE_CASE_SENSITIVE_LIKE"@);
            },
            Setting::LikeOperatorMatchesBlob(_) => {
                assert(r[i].0 == "SQLITE_LIKE_DOESNT_MATCH_BLOBS"@);
            },
            Setting::MaxAttachedDatabases(_) => {
                assert(r[i].0 == "SQLITE_MAX_ATTACHED"@);
            },
            Setting::MaxColumns(_) => {
                assert(r[i].0 == "SQLITE_MAX_COLUMN"@);
            },
            Setting::MaxExpressionDepth(_) => {
                assert(false);
            },
            Setting::MaxJsonDepth(_) => {
                assert(r[i].0 == "SQLITE_JSON_MAX_DEPTH"@);
            },
            Setting::MaxVariables(_) => {
                assert(r[i].0 == "SQLITE_MAX_VARIABLE_NUMBER"@);
            },
            Setting::SecureDelete(_) => {
                assert(r[i].0 == "SQLITE_SECURE_DELETE"@);
            },
            Setting::TemporaryStorage(_) => {
                assert(r[i].0 == "SQLITE_TEMP_STORE"@);
            },
            Setting::TrustedSchema(_) => {
                assert(r[i].0 == "SQLITE_TRUSTED_SCHEMA"@);
            },
        }
        assert(false);
    }
}

/// Rendering is deterministic: equal settings render to equal definition
/// sequences, fan-out order included.
pub proof fn lemma_render_deterministic(a: Setting, b: Setting)
    requires
        a == b,
    ensures
        spec_render(a) == spec_render(b),
{
}

/// Inverted boolean encoding: turning the automatic-indexing capability *on*
/// emits nothing, while turning it *off* emits exactly the one native "omit"
/// presence pair.
pub proof fn lemma_inverted_boolean(enable: bool)
    ensures
        enable ==> spec_render(Setting::EnableAutomaticIndex(enable)) == Seq::<
            (Seq<char>, Option<Seq<char>>),
        >::empty(),
        !enable ==> spec_render(Setting::EnableAutomaticIndex(enable)) == seq![
            ("SQLITE_OMIT_AUTOMATIC_INDEX"@, Option::<Seq<char>>::None),
        ],
{
}

/// Packed composite encoding: the double-quoted-string option always renders
/// as exactly one `SQLITE_DQS` pair whose value is the decimal rendering of
/// the packed two-bit code, and the packing is injective — no two flag
/// combinations collide.
pub proof fn lemma_packed_composite(d: DoubleQuotedStrings)
    ensures
        spec_render(Setting::DoubleQuotedStrings(d)) == seq![
            ("SQLITE_DQS"@, Some(spec_decimal(d.spec_dqs_code()))),
        ],
        d.spec_dqs_code() < 4,
        forall|other: DoubleQuotedStrings|
            d.spec_dqs_code() == #[trigger] other.spec_dqs_code() ==> d == other,
{
}

} // verus!
