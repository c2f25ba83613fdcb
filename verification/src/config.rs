//! The configuration store: one current [`Setting`] per [`SettingKey`].
//!
//! A [`Config`] is an order-independent mapping from option key to current
//! typed value. Its mathematical view is a `Map<SettingKey, Setting>`;
//! construction from a sequence gives later entries precedence ("last write
//! wins"), and [`Config::set`] replaces whole settings atomically.

use vstd::multiset::Multiset;
use vstd::prelude::*;

use crate::driver::{defines_of, files_of, out_dir_of, warnings_of};
use crate::render::{
    lemma_depth_symbol_exclusive, lemma_rendered_of_absent, lemma_spec_decimal_nonzero,
    rendered_of, spec_decimal, spec_render, spec_valued, views_of, Definition,
};
use crate::settings::{
    spec_key_of, DoubleQuotedStrings, Setting, SettingKey, Synchronous, Threading,
};

verus! {

/// The mapping a sequence of settings builds up when inserted in order:
/// each setting lands at its key, and a later entry overwrites an earlier
/// one with the same key.
pub open spec fn map_of(s: Seq<Setting>) -> Map<SettingKey, Setting>
    decreases s.len(),
{
    if s.len() == 0 {
        Map::empty()
    } else {
        map_of(s.drop_last()).insert(spec_key_of(s.last()), s.last())
    }
}

/// No two entries of the sequence configure the same option.
pub open spec fn distinct_keys(s: Seq<Setting>) -> bool {
    forall|i: int, j: int|
        0 <= i < j < s.len() ==> spec_key_of(s[i]) != spec_key_of(s[j])
}

/// A key is in the built mapping exactly when some entry of the sequence
/// carries it.
pub proof fn lemma_map_of_contains(s: Seq<Setting>, k: SettingKey)
    ensures
        map_of(s).contains_key(k) <==> exists|i: int|
            0 <= i < s.len() && spec_key_of(s[i]) == k,
    decreases s.len(),
{
    if s.len() > 0 {
        lemma_map_of_contains(s.drop_last(), k);
        if map_of(s).contains_key(k) {
            if spec_key_of(s.last()) == k {
                assert(spec_key_of(s[s.len() - 1]) == k);
            } else {
                let i = choose|i: int|
                    0 <= i < s.drop_last().len() && spec_key_of(s.drop_last()[i]) == k;
                assert(spec_key_of(s[i]) == k);
            }
        }
        if exists|i: int| 0 <= i < s.len() && spec_key_of(s[i]) == k {
            let i = choose|i: int| 0 <= i < s.len() && spec_key_of(s[i]) == k;
            if i < s.len() - 1 {
                assert(spec_key_of(s.drop_last()[i]) == k);
            }
        }
    }
}

/// With distinct keys, the built mapping stores each entry of the sequence
/// at that entry's own key.
pub proof fn lemma_map_of_index(s: Seq<Setting>, i: int)
    requires
        distinct_keys(s),
        0 <= i < s.len(),
    ensures
        map_of(s).contains_key(spec_key_of(s[i])),
        map_of(s)[spec_key_of(s[i])] == s[i],
    decreases s.len(),
{
    if i < s.len() - 1 {
        assert(distinct_keys(s.drop_last()));
        assert(s.drop_last()[i] == s[i]);
        lemma_map_of_index(s.drop_last(), i);
    }
}

/// Replacing the entry that holds a key rewrites exactly that key's slot in
/// the built mapping, and keeps the keys distinct.
pub proof fn lemma_map_of_update(s: Seq<Setting>, i: int, x: Setting)
    requires
        distinct_keys(s),
        0 <= i < s.len(),
        spec_key_of(x) == spec_key_of(s[i]),
    ensures
        map_of(s.update(i, x)) == map_of(s).insert(spec_key_of(x), x),
        distinct_keys(s.update(i, x)),
    decreases s.len(),
{
    let t = s.update(i, x);
    assert(forall|j: int| 0 <= j < s.len() ==> spec_key_of(t[j]) == spec_key_of(s[j]));
    if i == s.len() - 1 {
        assert(t.drop_last() =~= s.drop_last());
        assert(t.last() == x);
        assert(map_of(t) == map_of(s.drop_last()).insert(spec_key_of(x), x));
        assert(map_of(s).insert(spec_key_of(x), x) =~= map_of(s.drop_last()).insert(
            spec_key_of(x),
            x,
        ));
    } else {
        assert(distinct_keys(s.drop_last()));
        assert(t.drop_last() =~= s.drop_last().update(i, x));
        assert(t.last() == s.last());
        lemma_map_of_update(s.drop_last(), i, x);
        assert(map_of(t) == map_of(s.drop_last()).insert(spec_key_of(x), x).insert(
            spec_key_of(s.last()),
            s.last(),
        ));
        assert(spec_key_of(x) != spec_key_of(s.last()));
        assert(map_of(s.drop_last()).insert(spec_key_of(x), x).insert(
            spec_key_of(s.last()),
            s.last(),
        ) =~= map_of(s.drop_last()).insert(spec_key_of(s.last()), s.last()).insert(
            spec_key_of(x),
            x,
        ));
    }
}

/// Appending an entry inserts it at its key in the built mapping; when the
/// key is new, the keys stay distinct.
pub proof fn lemma_map_of_push(s: Seq<Setting>, x: Setting)
    ensures
        map_of(s.push(x)) == map_of(s).insert(spec_key_of(x), x),
        distinct_keys(s) && (forall|j: int|
            0 <= j < s.len() ==> spec_key_of(s[j]) != spec_key_of(x)) ==> distinct_keys(
            s.push(x),
        ),
{
    assert(s.push(x).drop_last() =~= s);
    assert(s.push(x).last() == x);
}

/// Last write wins: when position `j` holds the final occurrence of its key
/// in a construction sequence, the built mapping stores exactly that entry.
pub proof fn lemma_last_write_wins(s: Seq<Setting>, j: int)
    requires
        0 <= j < s.len(),
        forall|l: int| j < l < s.len() ==> spec_key_of(s[l]) != spec_key_of(s[j]),
    ensures
        map_of(s).contains_key(spec_key_of(s[j])),
        map_of(s)[spec_key_of(s[j])] == s[j],
    decreases s.len(),
{
    if j < s.len() - 1 {
        assert(s.drop_last()[j] == s[j]);
        lemma_last_write_wins(s.drop_last(), j);
        assert(spec_key_of(s.last()) != spec_key_of(s[j]));
    }
}

/// Removing an entry removes exactly that entry's key from the built
/// mapping, provided the keys are distinct.
pub proof fn lemma_map_of_remove(s: Seq<Setting>, j: int)
    requires
        distinct_keys(s),
        0 <= j < s.len(),
    ensures
        map_of(s.remove(j)) == map_of(s).remove(spec_key_of(s[j])),
        distinct_keys(s.remove(j)),
    decreases s.len(),
{
    let k = spec_key_of(s[j]);
    assert(distinct_keys(s.drop_last()));
    if j == s.len() - 1 {
        assert(s.remove(j) =~= s.drop_last());
        lemma_map_of_contains(s.drop_last(), k);
        assert(!map_of(s.drop_last()).contains_key(k));
        assert(map_of(s).remove(k) =~= map_of(s.drop_last()));
    } else {
        assert(s.remove(j).drop_last() =~= s.drop_last().remove(j));
        assert(s.remove(j).last() == s.last());
        assert(s.drop_last()[j] == s[j]);
        lemma_map_of_remove(s.drop_last(), j);
        assert(map_of(s.remove(j)) == map_of(s.drop_last()).remove(k).insert(
            spec_key_of(s.last()),
            s.last(),
        ));
        assert(spec_key_of(s.last()) != k);
        assert(map_of(s.drop_last()).remove(k).insert(spec_key_of(s.last()), s.last())
            =~= map_of(s.drop_last()).insert(spec_key_of(s.last()), s.last()).remove(k));
        assert(forall|i: int, l: int|
            0 <= i < l < s.remove(j).len() ==> spec_key_of(s.remove(j)[i]) != spec_key_of(
                s.remove(j)[l],
            ));
    }
}

/// The rendered multiset of a sequence splits into the rendered pairs of any
/// one entry plus those of the rest.
pub proof fn lemma_rendered_of_remove(s: Seq<Setting>, j: int)
    requires
        0 <= j < s.len(),
    ensures
        rendered_of(s) == rendered_of(s.remove(j)).add(spec_render(s[j]).to_multiset()),
    decreases s.len(),
{
    if j == s.len() - 1 {
        assert(s.remove(j) =~= s.drop_last());
    } else {
        assert(s.remove(j).drop_last() =~= s.drop_last().remove(j));
        assert(s.remove(j).last() == s.last());
        assert(s.drop_last()[j] == s[j]);
        lemma_rendered_of_remove(s.drop_last(), j);
        assert(rendered_of(s) == rendered_of(s.drop_last().remove(j)).add(
            spec_render(s[j]).to_multiset(),
        ).add(spec_render(s.last()).to_multiset()));
        assert(rendered_of(s.remove(j)).add(spec_render(s[j]).to_multiset())
            =~= rendered_of(s.drop_last().remove(j)).add(
            spec_render(s[j]).to_multiset(),
        ).add(spec_render(s.last()).to_multiset()));
    }
}

/// Two sequences with distinct keys that build the same mapping render the
/// same definition multiset: rendering depends only on the mapping, not on
/// the order the settings were stored in.
pub proof fn lemma_rendered_of_map(s1: Seq<Setting>, s2: Seq<Setting>)
    requires
        distinct_keys(s1),
        distinct_keys(s2),
        map_of(s1) == map_of(s2),
    ensures
        rendered_of(s1) == rendered_of(s2),
    decreases s1.len(),
{
    if s1.len() == 0 {
        if s2.len() > 0 {
            lemma_map_of_contains(s2, spec_key_of(s2.last()));
            assert(spec_key_of(s2[s2.len() - 1]) == spec_key_of(s2.last()));
            assert(map_of(s2).contains_key(spec_key_of(s2.last())));
        }
        assert(s2.len() == 0);
    } else {
        let x = s1.last();
        let k = spec_key_of(x);
        lemma_map_of_index(s1, s1.len() - 1);
        lemma_map_of_contains(s2, k);
        let j = choose|j: int| 0 <= j < s2.len() && spec_key_of(s2[j]) == k;
        lemma_map_of_index(s2, j);
        assert(s2[j] == x);

        let s1p = s1.drop_last();
        let s2p = s2.remove(j);
        assert(distinct_keys(s1p));
        lemma_map_of_contains(s1p, k);
        assert(!map_of(s1p).contains_key(k));
        assert(map_of(s1p) =~= map_of(s1).remove(k));
        lemma_map_of_remove(s2, j);
        assert(map_of(s1p) == map_of(s2p));
        lemma_rendered_of_map(s1p, s2p);
        lemma_rendered_of_remove(s2, j);
    }
}

/// Order independence of rendering: two well-formed configurations that
/// store the same mapping produce the same definition set, however their
/// entries were inserted or updated along the way.
pub proof fn lemma_defs_order_independent(c1: &Config, c2: &Config)
    requires
        c1.wf(),
        c2.wf(),
        c1@ == c2@,
    ensures
        c1.defs() == c2.defs(),
{
    lemma_rendered_of_map(c1.settings@, c2.settings@);
}

/// What a well-formed configuration stores and renders, for callers'
/// proofs: its entries have distinct keys, they build exactly its mapping,
/// and its definition set is [`rendered_of`] those entries.
pub proof fn lemma_config_entries(c: &Config)
    requires
        c.wf(),
    ensures
        distinct_keys(c.entries()),
        map_of(c.entries()) == c@,
        c.defs() == rendered_of(c.entries()),
{
}

/// The definition set of a well-formed configuration is [`rendered_of`] any
/// distinct-key sequence that builds its mapping. With this a caller can
/// compute the rendered multiset of any configuration it has built, from
/// [`spec_render`] of the settings it stored.
pub proof fn lemma_defs_from_view(c: &Config, s: Seq<Setting>)
    requires
        c.wf(),
        distinct_keys(s),
        map_of(s) == c@,
    ensures
        c.defs() == rendered_of(s),
{
    lemma_rendered_of_map(c.settings@, s);
}

/// Storing an identical setting twice is the same as storing it once: the
/// resulting mapping — and so every later lookup — is unchanged by the
/// repetition.
pub proof fn lemma_set_idempotent(m: Map<SettingKey, Setting>, s: Setting)
    ensures
        m.insert(spec_key_of(s), s).insert(spec_key_of(s), s) == m.insert(spec_key_of(s), s),
{
    assert(m.insert(spec_key_of(s), s).insert(spec_key_of(s), s) =~= m.insert(
        spec_key_of(s),
        s,
    ));
}

/// A set of compile-time option overrides, one per option key.
#[derive(Clone, Debug, PartialEq, Eq)]
pub struct Config {
    settings: Vec<Setting>,
}

impl View for Config {
    type V = Map<SettingKey, Setting>;

    /// The mapping this configuration currently stores.
    closed spec fn view(&self) -> Map<SettingKey, Setting> {
        map_of(self.settings@)
    }
}

impl Config {
    /// The stored entries, in storage order. Exposed so that rendering the
    /// whole configuration can be specified precisely.
    pub closed spec fn entries(&self) -> Seq<Setting> {
        self.settings@
    }

    /// Well-formedness: no two stored entries configure the same option.
    /// Every constructor establishes this and every operation preserves it.
    pub closed spec fn wf(&self) -> bool {
        distinct_keys(self.settings@)
    }

    /// An empty configuration: no option is overridden.
    pub fn empty() -> (r: Config)
        ensures
            r.wf(),
            r@ == Map::<SettingKey, Setting>::empty(),
            r.defs() == Multiset::<(Seq<char>, Option<Seq<char>>)>::empty(),
    {
        let r = Config { settings: Vec::new() };
        proof {
            assert(r.defs() == Multiset::<(Seq<char>, Option<Seq<char>>)>::empty());
        }
        r
    }

    /// Build a configuration from a sequence of settings. When two entries
    /// configure the same option, the later one wins.
    pub fn new(settings: Vec<Setting>) -> (r: Config)
        ensures
            r.wf(),
            r@ == map_of(settings@),
    {
        let mut config = Config { settings: Vec::new() };
        let n = settings.len();
        let mut i: usize = 0;
        while i < n
            invariant
                n == settings@.len(),
                0 <= i <= n,
                config.wf(),
                config@ == map_of(settings@.take(i as int)),
            decreases n - i,
        {
            config.set(settings[i]);
            proof {
                assert(settings@.take(i + 1) =~= settings@.take(i as int).push(settings@[i as int]));
                assert(map_of(settings@.take(i + 1)) == map_of(settings@.take(i as int)).insert(
                    spec_key_of(settings@[i as int]),
                    settings@[i as int],
                )) by {
                    lemma_map_of_push(settings@.take(i as int), settings@[i as int]);
                }
            }
            i += 1;
        }
        proof {
            assert(settings@.take(n as int) =~= settings@);
        }
        config
    }

    /// Look up the current setting for an option key, if any was stored.
    pub fn get(&self, key: SettingKey) -> (r: Option<Setting>)
        requires
            self.wf(),
        ensures
            r == if self@.contains_key(key) {
                Some(self@[key])
            } else {
                None::<Setting>
            },
    {
        let n = self.settings.len();
        let mut i: usize = 0;
        while i < n
            invariant
                n == self.settings@.len(),
                0 <= i <= n,
                distinct_keys(self.settings@),
                self@ == map_of(self.settings@),
                forall|j: int| 0 <= j < i ==> spec_key_of(self.settings@[j]) != key,
            decreases n - i,
        {
            let s = self.settings[i];
            if s.key_of() == key {
                proof {
                    lemma_map_of_index(self.settings@, i as int);
                }
                return Some(s);
            }
            i += 1;
        }
        proof {
            lemma_map_of_contains(self.settings@, key);
        }
        None
    }

    /// Store a setting, replacing any prior setting of the same option.
    /// Always succeeds; the rest of the configuration is untouched.
    pub fn set(&mut self, setting: Setting)
        requires
            old(self).wf(),
        ensures
            final(self).wf(),
            final(self)@ == old(self)@.insert(spec_key_of(setting), setting),
    {
        let key = setting.key_of();
        let n = self.settings.len();
        let mut i: usize = 0;
        while i < n
            invariant
                n == self.settings@.len(),
                0 <= i <= n,
                distinct_keys(self.settings@),
                self.settings@ == old(self).settings@,
                spec_key_of(setting) == key,
                forall|j: int| 0 <= j < i ==> spec_key_of(self.settings@[j]) != key,
            decreases n - i,
        {
            let s = self.settings[i];
            if s.key_of() == key {
                self.settings[i] = setting;
                proof {
                    lemma_map_of_update(old(self).settings@, i as int, setting);
                }
                return;
            }
            i += 1;
        }
        self.settings.push(setting);
        proof {
            lemma_map_of_push(old(self).settings@, setting);
        }
    }
}

impl Config {
    /// The full definition set this configuration renders into, as a
    /// multiset: each stored setting contributes its rendered pairs, with no
    /// order imposed.
    pub closed spec fn defs(&self) -> Multiset<(Seq<char>, Option<Seq<char>>)> {
        rendered_of(self.settings@)
    }

    /// Render every stored setting into one flat definition list, holding
    /// exactly this configuration's [`defs`](Self::defs). This is the same
    /// definition set [`apply`](Self::apply) hands the native driver, so a
    /// configuration can be inspected without invoking a compiler.
    pub fn definitions(&self) -> (r: Vec<Definition>)
        ensures
            views_of(r@).to_multiset() == self.defs(),
    {
        let mut out: Vec<Definition> = Vec::new();
        let n = self.settings.len();
        let mut i: usize = 0;
        proof {
            broadcast use vstd::seq_lib::group_to_multiset_ensures;

            assert(views_of(out@) =~= Seq::<(Seq<char>, Option<Seq<char>>)>::empty());
            assert(views_of(out@).to_multiset() =~= rendered_of(self.settings@.take(0)));
        }
        while i < n
            invariant
                n == self.settings@.len(),
                0 <= i <= n,
                views_of(out@).to_multiset() == rendered_of(self.settings@.take(i as int)),
            decreases n - i,
        {
            let s = self.settings[i];
            let mut defs = s.render();
            let ghost old_out = out@;
            let ghost new_defs = defs@;
            out.append(&mut defs);
            proof {
                assert(views_of(out@) =~= views_of(old_out) + views_of(new_defs));
                vstd::seq_lib::lemma_multiset_commutative(
                    views_of(old_out),
                    views_of(new_defs),
                );
                let t = self.settings@.take(i + 1);
                assert(t.drop_last() =~= self.settings@.take(i as int));
                assert(t.last() == self.settings@[i as int]);
                assert(views_of(out@).to_multiset() =~= rendered_of(t));
            }
            i += 1;
        }
        proof {
            assert(self.settings@.take(n as int) =~= self.settings@);
        }
        out
    }

    /// Render every stored setting and feed the resulting definitions to
    /// the native driver: afterwards the driver holds exactly the old
    /// definitions plus this configuration's [`defs`](Self::defs).
    ///
    /// Rendering never mutates the configuration, so repeating the call on
    /// fresh drivers yields identical definition sets.
    pub fn apply(&self, b: &mut cc::Build)
        ensures
            defines_of(*final(b)) == defines_of(*old(b)).add(self.defs()),
            files_of(*final(b)) == files_of(*old(b)),
            warnings_of(*final(b)) == warnings_of(*old(b)),
            out_dir_of(*final(b)) == out_dir_of(*old(b)),
    {
        let n = self.settings.len();
        let mut i: usize = 0;
        proof {
            assert(defines_of(*b) =~= defines_of(*b).add(rendered_of(self.settings@.take(0))));
        }
        while i < n
            invariant
                n == self.settings@.len(),
                0 <= i <= n,
                defines_of(*b) == defines_of(*old(b)).add(
                    rendered_of(self.settings@.take(i as int)),
                ),
                files_of(*b) == files_of(*old(b)),
                warnings_of(*b) == warnings_of(*old(b)),
                out_dir_of(*b) == out_dir_of(*old(b)),
            decreases n - i,
        {
            let s = self.settings[i];
            s.apply(b);
            proof {
                let t = self.settings@.take(i + 1);
                assert(t.drop_last() =~= self.settings@.take(i as int));
                assert(t.last() == self.settings@[i as int]);
                assert(rendered_of(t) == rendered_of(self.settings@.take(i as int)).add(
                    spec_render(self.settings@[i as int]).to_multiset(),
                ));
                assert(defines_of(*b) =~= defines_of(*old(b)).add(rendered_of(t)));
            }
            i += 1;
        }
        proof {
            assert(self.settings@.take(n as int) =~= self.settings@);
        }
    }
}

/// The settings of the opinionated baseline configuration. With
/// `diagnostics`, two debug-build guard options — extra API-misuse checks
/// and internal consistency assertions — are enabled on top.
pub open spec fn spec_baseline_settings(diagnostics: bool) -> Seq<Setting> {
    let base = seq![
        Setting::Sync(Synchronous::Full),
        Setting::WalSync(Synchronous::Normal),
        Setting::Threading(Threading::MultiThread),
        Setting::DoubleQuotedStrings(DoubleQuotedStrings { in_ddl: false, in_dml: false }),
        Setting::DefaultForeignKeys(true),
        Setting::DefaultMemoryStatus(false),
        Setting::EnableAlloca(true),
        Setting::EnableAuthorization(false),
        Setting::EnableAutomaticIndex(true),
        Setting::EnableAutomaticInitialize(true),
        Setting::EnableAutomaticReset(false),
        Setting::EnableBlobIo(false),
        Setting::EnableColumnDeclaredType(false),
        Setting::EnableDatabasePagesVirtualTable(false),
        Setting::EnableDatabaseStatisticsVirtualTable(false),
        Setting::EnableDatabaseUri(true),
        Setting::EnableDeprecated(false),
        Setting::EnableGetTable(false),
        Setting::EnableMemoryManagement(true),
        Setting::EnableProgressCallback(false),
        Setting::EnableSharedCache(false),
        Setting::EnableTrace(false),
        Setting::EnableUtf16(false),
        Setting::EnableVirtualTables(true),
        Setting::EnableWriteAheadLog(true),
        Setting::LikeOperatorMatchesBlob(false),
        Setting::MaxExpressionDepth(0usize),
    ];
    if diagnostics {
        base + seq![Setting::EnableApiArmor(true), Setting::Debug(true)]
    } else {
        base
    }
}

impl Config {
    /// The documented baseline configuration. The result is a fixed table,
    /// a function of `diagnostics` alone: pass `true` for debug-mode builds
    /// to also enable the two diagnostic guard options.
    pub fn baseline(diagnostics: bool) -> (r: Config)
        ensures
            r.wf(),
            r@ == map_of(spec_baseline_settings(diagnostics)),
            r.defs() == rendered_of(spec_baseline_settings(diagnostics)),
    {
        let mut v: Vec<Setting> = Vec::new();
        v.push(Setting::Sync(Synchronous::Full));
        v.push(Setting::WalSync(Synchronous::Normal));
        v.push(Setting::Threading(Threading::MultiThread));
        v.push(Setting::DoubleQuotedStrings(DoubleQuotedStrings { in_ddl: false, in_dml: false }));
        v.push(Setting::DefaultForeignKeys(true));
        v.push(Setting::DefaultMemoryStatus(false));
        v.push(Setting::EnableAlloca(true));
        v.push(Setting::EnableAuthorization(false));
        v.push(Setting::EnableAutomaticIndex(true));
        v.push(Setting::EnableAutomaticInitialize(true));
        v.push(Setting::EnableAutomaticReset(false));
        v.push(Setting::EnableBlobIo(false));
        v.push(Setting::EnableColumnDeclaredType(false));
        v.push(Setting::EnableDatabasePagesVirtualTable(false));
        v.push(Setting::EnableDatabaseStatisticsVirtualTable(false));
        v.push(Setting::EnableDatabaseUri(true));
        v.push(Setting::EnableDeprecated(false));
        v.push(Setting::EnableGetTable(false));
        v.push(Setting::EnableMemoryManagement(true));
        v.push(Setting::EnableProgressCallback(false));
        v.push(Setting::EnableSharedCache(false));
        v.push(Setting::EnableTrace(false));
        v.push(Setting::EnableUtf16(false));
        v.push(Setting::EnableVirtualTables(true));
        v.push(Setting::EnableWriteAheadLog(true));
        v.push(Setting::LikeOperatorMatchesBlob(false));
        v.push(Setting::MaxExpressionDepth(0));
        if diagnostics {
            v.push(Setting::EnableApiArmor(true));
            v.push(Setting::Debug(true));
        }
        proof {
            assert(v@ =~= spec_baseline_settings(diagnostics));
        }
        let r = Config::new(v);
        proof {
            assert(distinct_keys(spec_baseline_settings(diagnostics)));
            lemma_defs_from_view(&r, spec_baseline_settings(diagnostics));
        }
        r
    }
}

/// The baseline table, entry by entry: every documented option is stored
/// with its documented value, and the two diagnostic guard options are
/// present exactly in diagnostics mode. Together with
/// [`Config::baseline`]'s contract this pins the default configuration
/// bit for bit, independent of anything but the chosen mode.
pub proof fn lemma_baseline_table(diagnostics: bool)
    ensures
        ({
            let m = map_of(spec_baseline_settings(diagnostics));
            &&& m[SettingKey::Sync] == Setting::Sync(Synchronous::Full)
            &&& m[SettingKey::WalSync] == Setting::WalSync(Synchronous::Normal)
            &&& m[SettingKey::Threading] == Setting::Threading(Threading::MultiThread)
            &&& m[SettingKey::DoubleQuotedStrings] == Setting::DoubleQuotedStrings(
                DoubleQuotedStrings { in_ddl: false, in_dml: false },
            )
            &&& m[SettingKey::DefaultForeignKeys] == Setting::DefaultForeignKeys(true)
            &&& m[SettingKey::DefaultMemoryStatus] == Setting::DefaultMemoryStatus(false)
            &&& m[SettingKey::EnableAlloca] == Setting::EnableAlloca(true)
            &&& m[SettingKey::EnableAuthorization] == Setting::EnableAuthorization(false)
            &&& m[SettingKey::EnableAutomaticIndex] == Setting::EnableAutomaticIndex(true)
            &&& m[SettingKey::EnableAutomaticInitialize] == Setting::EnableAutomaticInitialize(
                true,
            )
            &&& m[SettingKey::EnableAutomaticReset] == Setting::EnableAutomaticReset(false)
            &&& m[SettingKey::EnableBlobIo] == Setting::EnableBlobIo(false)
            &&& m[SettingKey::EnableColumnDeclaredType] == Setting::EnableColumnDeclaredType(
                false,
            )
            &&& m[SettingKey::EnableDatabasePagesVirtualTable]
                == Setting::EnableDatabasePagesVirtualTable(false)
            &&& m[SettingKey::EnableDatabaseStatisticsVirtualTable]
                == Setting::EnableDatabaseStatisticsVirtualTable(false)
            &&& m[SettingKey::EnableDatabaseUri] == Setting::EnableDatabaseUri(true)
            &&& m[SettingKey::EnableDeprecated] == Setting::EnableDeprecated(false)
            &&& m[SettingKey::EnableGetTable] == Setting::EnableGetTable(false)
            &&& m[SettingKey::EnableMemoryManagement] == Setting::EnableMemoryManagement(true)
            &&& m[SettingKey::EnableProgressCallback] == Setting::EnableProgressCallback(false)
            &&& m[SettingKey::EnableSharedCache] == Setting::EnableSharedCache(false)
            &&& m[SettingKey::EnableTrace] == Setting::EnableTrace(false)
            &&& m[SettingKey::EnableUtf16] == Setting::EnableUtf16(false)
            &&& m[SettingKey::EnableVirtualTables] == Setting::EnableVirtualTables(true)
            &&& m[SettingKey::EnableWriteAheadLog] == Setting::EnableWriteAheadLog(true)
            &&& m[SettingKey::LikeOperatorMatchesBlob] == Setting::LikeOperatorMatchesBlob(false)
            &&& m[SettingKey::MaxExpressionDepth] == Setting::MaxExpressionDepth(0usize)
            &&& m.contains_key(SettingKey::Debug) <==> diagnostics
            &&& m.contains_key(SettingKey::EnableApiArmor) <==> diagnostics
            &&& (diagnostics ==> m[SettingKey::Debug] == Setting::Debug(true))
            &&& (diagnostics ==> m[SettingKey::EnableApiArmor] == Setting::EnableApiArmor(true))
        }),
{
    let s = spec_baseline_settings(diagnostics);
    assert(distinct_keys(s));
    assert forall|i: int| 0 <= i < s.len() implies map_of(s)[spec_key_of(s[i])] == s[i]
        && map_of(s).contains_key(spec_key_of(s[i])) by {
        lemma_map_of_index(s, i);
    }
    lemma_map_of_contains(s, SettingKey::Debug);
    lemma_map_of_contains(s, SettingKey::EnableApiArmor);
    if diagnostics {
        assert(spec_key_of(s[28]) == SettingKey::Debug);
        assert(spec_key_of(s[27]) == SettingKey::EnableApiArmor);
    }
}

/// End-to-end override: a well-formed configuration holding the baseline
/// mapping, once the maximum expression depth is overridden to `depth`,
/// renders exactly the baseline's definition set with the depth pair
/// replaced — the new (`SQLITE_MAX_EXPR_DEPTH`, decimal of `depth`) pair
/// occurs exactly once, the old zero-valued pair is gone whenever `depth`
/// is nonzero, and every other pair is unchanged.
pub proof fn lemma_baseline_override_depth(base: &Config, over: &Config, depth: usize)
    requires
        base.wf(),
        over.wf(),
        base@ == map_of(spec_baseline_settings(false)),
        over@ == base@.insert(
            SettingKey::MaxExpressionDepth,
            Setting::MaxExpressionDepth(depth),
        ),
    ensures
        ({
            let p_old = ("SQLITE_MAX_EXPR_DEPTH"@, Some(spec_decimal(0)));
            let p_new = ("SQLITE_MAX_EXPR_DEPTH"@, Some(spec_decimal(depth as nat)));
            &&& over.defs() == base.defs().remove(p_old).insert(p_new)
            &&& base.defs().count(p_old) == 1
            &&& over.defs().count(p_new) == 1
            &&& (depth != 0 ==> over.defs().count(p_old) == 0)
        }),
{
    broadcast use vstd::seq_lib::group_to_multiset_ensures;

    let sym = "SQLITE_MAX_EXPR_DEPTH"@;
    let p_old = (sym, Some(spec_decimal(0)));
    let p_new = (sym, Some(spec_decimal(depth as nat)));
    let s = spec_baseline_settings(false);
    let x = Setting::MaxExpressionDepth(depth);
    assert(distinct_keys(s));
    assert(s[26] == Setting::MaxExpressionDepth(0usize));
    lemma_defs_from_view(base, s);
    let s2 = s.update(26, x);
    lemma_map_of_update(s, 26, x);
    lemma_defs_from_view(over, s2);
    lemma_rendered_of_remove(s, 26);
    lemma_rendered_of_remove(s2, 26);
    assert(s2.remove(26) =~= s.remove(26));
    assert(s2[26] == x);
    let rest = rendered_of(s.remove(26));
    assert(spec_valued(sym, spec_decimal(0)) =~= Seq::<
        (Seq<char>, Option<Seq<char>>),
    >::empty().push(p_old));
    assert(spec_valued(sym, spec_decimal(depth as nat)) =~= Seq::<
        (Seq<char>, Option<Seq<char>>),
    >::empty().push(p_new));
    assert(base.defs() =~= rest.insert(p_old));
    assert(over.defs() =~= rest.insert(p_new));
    assert forall|i: int|
        0 <= i < s.remove(26).len() implies !spec_render(
        #[trigger] s.remove(26)[i],
    ).contains(p_old) && !spec_render(s.remove(26)[i]).contains(p_new) by {
        assert(s.remove(26)[i] == s[i]);
        assert(spec_key_of(s[i]) != spec_key_of(s[26]));
        lemma_depth_symbol_exclusive(s[i], p_old);
        lemma_depth_symbol_exclusive(s[i], p_new);
    }
    lemma_rendered_of_absent(s.remove(26), p_old);
    lemma_rendered_of_absent(s.remove(26), p_new);
    assert(base.defs().count(p_old) == 1);
    assert(over.defs().count(p_new) == 1);
    if depth != 0 {
        lemma_spec_decimal_nonzero(depth as nat);
        assert(over.defs().count(p_old) == 0);
    }
    assert(over.defs() =~= base.defs().remove(p_old).insert(p_new));
}

impl Default for Config {
    /// The baseline table without the debug-build diagnostic options.
    fn default() -> (r: Config)
        ensures
            r.wf(),
            r@ == map_of(spec_baseline_settings(false)),
            r.defs() == rendered_of(spec_baseline_settings(false)),
    {
        Config::baseline(false)
    }
}

} // verus!
