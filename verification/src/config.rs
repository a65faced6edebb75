//! The configuration store: a versioned, atomically replaced snapshot of the
//! endpoint-name-to-upstream-target mapping, with whole-snapshot reload
//! semantics. A reload either fully succeeds (new snapshot installed, version
//! incremented) or fully fails (old snapshot retained, descriptive error);
//! readers always observe one complete snapshot.

use vstd::prelude::*;
use crate::errors::ConfigError;
use crate::errors::ConfigErrorView;
use crate::http::Header;
use crate::http::HeaderView;
use crate::text::contains_char;
use crate::text::has_prefix;
use crate::text::spec_contains_char;
use crate::text::spec_has_prefix;

verus! {

/// The upstream definition of one endpoint: target base URL, fixed headers
/// added to every outbound call, and an optional timeout override in
/// milliseconds. Immutable once constructed; replaced wholesale on reload.
pub struct EndpointConfig {
    pub target: String,
    pub headers: Vec<Header>,
    pub timeout_ms: Option<u64>,
}

/// The mathematical value of an `EndpointConfig`.
#[verifier::ext_equal]
pub struct EndpointConfigView {
    pub target: Seq<char>,
    pub headers: Seq<HeaderView>,
    pub timeout_ms: Option<u64>,
}

impl View for EndpointConfig {
    type V = EndpointConfigView;

    open spec fn view(&self) -> EndpointConfigView {
        EndpointConfigView {
            target: self.target@,
            headers: self.headers@.map_values(|h: Header| h@),
            timeout_ms: self.timeout_ms,
        }
    }
}

/// One named entry of the configuration.
pub struct Endpoint {
    pub name: String,
    pub config: EndpointConfig,
}

/// The mathematical value of an `Endpoint`.
#[verifier::ext_equal]
pub struct EndpointView {
    pub name: Seq<char>,
    pub config: EndpointConfigView,
}

impl View for Endpoint {
    type V = EndpointView;

    open spec fn view(&self) -> EndpointView {
        EndpointView { name: self.name@, config: self.config@ }
    }
}

impl Clone for EndpointConfig {
    /// A copy with the same target, headers and timeout.
    fn clone(&self) -> (r: EndpointConfig)
        ensures
            r@ == self@,
    {
        let r = EndpointConfig {
            target: self.target.clone(),
            headers: crate::http::clone_headers(&self.headers),
            timeout_ms: self.timeout_ms,
        };
        proof {
            assert(r@ =~= self@);
        }
        r
    }
}

impl Clone for Endpoint {
    /// A copy with the same name and configuration.
    fn clone(&self) -> (r: Endpoint)
        ensures
            r@ == self@,
    {
        let r = Endpoint { name: self.name.clone(), config: self.config.clone() };
        proof {
            assert(r@ =~= self@);
        }
        r
    }
}

/// An endpoint name is usable when it is non-empty and free of path
/// separators; it is a case-sensitive exact-match key.
pub open spec fn spec_valid_name(n: Seq<char>) -> bool {
    n.len() > 0 && !spec_contains_char(n, '/')
}

/// A target is usable as a base URL when it carries an HTTP scheme followed
/// by a non-empty remainder.
pub open spec fn spec_valid_target(t: Seq<char>) -> bool {
    ||| spec_has_prefix(t, "http://"@) && t.len() > "http://"@.len()
    ||| spec_has_prefix(t, "https://"@) && t.len() > "https://"@.len()
}

/// Whether `t` is a usable target base URL.
pub fn valid_target(t: &str) -> (r: bool)
    ensures
        r == spec_valid_target(t@),
{
    proof {
        reveal_strlit("http://");
        reveal_strlit("https://");
    }
    let n: usize = t.unicode_len();
    if has_prefix(t, "http://") {
        n > 7
    } else if has_prefix(t, "https://") {
        n > 8
    } else {
        false
    }
}

/// Whether `n` is a usable endpoint name.
pub fn valid_name(n: &str) -> (r: bool)
    ensures
        r == spec_valid_name(n@),
{
    !n.is_empty() && !contains_char(n, '/')
}

/// An entry passes validation when its name and target are usable.
pub open spec fn spec_entry_ok(e: EndpointView) -> bool {
    spec_valid_name(e.name) && spec_valid_target(e.config.target)
}

/// No two entries share a name.
pub open spec fn spec_names_unique(s: Seq<EndpointView>) -> bool {
    forall|i: int, j: int| 0 <= i < j < s.len() ==> s[i].name != s[j].name
}

/// A whole entry list passes validation.
pub open spec fn spec_entries_ok(s: Seq<EndpointView>) -> bool {
    (forall|i: int| 0 <= i < s.len() ==> spec_entry_ok(#[trigger] s[i])) && spec_names_unique(s)
}

/// The first validation error among the entries from index `i` on, if any.
/// Entries are examined in order; within one entry, an empty name is
/// reported before a name with a separator, then an unusable target, then a
/// name already taken by an earlier entry.
pub open spec fn spec_validate_from(s: Seq<EndpointView>, i: int) -> Option<ConfigErrorView>
    decreases s.len() - i,
{
    if i < 0 || i >= s.len() {
        None
    } else {
        let e = s[i];
        if e.name.len() == 0 {
            Some(ConfigErrorView::EmptyName)
        } else if spec_contains_char(e.name, '/') {
            Some(ConfigErrorView::InvalidName { name: e.name })
        } else if !spec_valid_target(e.config.target) {
            Some(ConfigErrorView::InvalidTarget { name: e.name, target: e.config.target })
        } else if exists|j: int| 0 <= j < i && s[j].name == e.name {
            Some(ConfigErrorView::DuplicateName { name: e.name })
        } else {
            spec_validate_from(s, i + 1)
        }
    }
}

/// The first validation error of an entry list, if any.
pub open spec fn spec_validate(s: Seq<EndpointView>) -> Option<ConfigErrorView> {
    spec_validate_from(s, 0)
}

/// Validation finds no error exactly when every entry is usable and the
/// names are pairwise distinct.
pub proof fn lemma_validate_none(s: Seq<EndpointView>)
    ensures
        spec_validate(s) is None <==> spec_entries_ok(s),
{
    lemma_validate_from_none(s, 0);
}

proof fn lemma_validate_from_none(s: Seq<EndpointView>, i: int)
    requires
        0 <= i <= s.len(),
    ensures
        spec_validate_from(s, i) is None <==> (forall|k: int|
            i <= k < s.len() ==> spec_entry_ok(#[trigger] s[k])) && (forall|j: int, k: int|
            0 <= j < k < s.len() && i <= k ==> s[j].name != s[k].name),
    decreases s.len() - i,
{
    if i < s.len() {
        lemma_validate_from_none(s, i + 1);
    }
}

/// An immutable, versioned view of the full endpoint configuration at one
/// instant. Readers always hold one complete snapshot; a concurrent reload
/// replaces the store's current snapshot but never the one already fetched.
pub struct ConfigSnapshot {
    pub version: u64,
    pub loaded_at: u64,
    pub endpoints: Vec<Endpoint>,
}

/// The mathematical value of a `ConfigSnapshot`.
#[verifier::ext_equal]
pub struct ConfigSnapshotView {
    pub version: u64,
    pub loaded_at: u64,
    pub endpoints: Seq<EndpointView>,
}

impl View for ConfigSnapshot {
    type V = ConfigSnapshotView;

    open spec fn view(&self) -> ConfigSnapshotView {
        ConfigSnapshotView {
            version: self.version,
            loaded_at: self.loaded_at,
            endpoints: self.endpoints@.map_values(|e: Endpoint| e@),
        }
    }
}

impl Clone for ConfigSnapshot {
    /// The reader's copy-on-read: a complete, independent copy of the one
    /// snapshot, with the same version, timestamp and entries.
    fn clone(&self) -> (r: ConfigSnapshot)
        ensures
            r@ == self@,
    {
        let ghost v = self@.endpoints;
        let mut endpoints: Vec<Endpoint> = Vec::new();
        proof {
            assert(endpoints@.map_values(|e: Endpoint| e@) =~= v.take(0));
        }
        let n: usize = self.endpoints.len();
        let mut i: usize = 0;
        while i < n
            invariant
                i <= n,
                n == self.endpoints.len(),
                v == self@.endpoints,
                endpoints@.map_values(|e: Endpoint| e@) == v.take(i as int),
            decreases n - i,
        {
            let ghost prev = endpoints@.map_values(|e: Endpoint| e@);
            assert(v[i as int] == self.endpoints@[i as int]@);
            endpoints.push(self.endpoints[i].clone());
            proof {
                assert(endpoints@.map_values(|e: Endpoint| e@) =~= prev.push(v[i as int]));
                assert(prev.push(v[i as int]) =~= v.take(i as int + 1));
            }
            i += 1;
        }
        proof {
            assert(v.take(n as int) =~= v);
        }
        let r = ConfigSnapshot { version: self.version, loaded_at: self.loaded_at, endpoints };
        proof {
            assert(r@ =~= self@);
        }
        r
    }
}

/// The configuration that the first entry named `n` carries, if any. With
/// unique names this is the configuration of the one entry named `n`.
pub open spec fn spec_lookup(s: Seq<EndpointView>, n: Seq<char>) -> Option<EndpointConfigView>
    decreases s.len(),
{
    if s.len() == 0 {
        None
    } else if s[0].name == n {
        Some(s[0].config)
    } else {
        spec_lookup(s.drop_first(), n)
    }
}

/// `n` names some entry of `s`.
pub open spec fn spec_contains_name(s: Seq<EndpointView>, n: Seq<char>) -> bool {
    exists|i: int| 0 <= i < s.len() && s[i].name == n
}

/// A lookup answers exactly for the names that some entry carries.
pub proof fn lemma_lookup_some(s: Seq<EndpointView>, n: Seq<char>)
    ensures
        spec_lookup(s, n) is Some <==> spec_contains_name(s, n),
    decreases s.len(),
{
    if s.len() > 0 {
        lemma_lookup_some(s.drop_first(), n);
        if s[0].name != n {
            assert(spec_contains_name(s, n) <==> spec_contains_name(s.drop_first(), n)) by {
                if spec_contains_name(s.drop_first(), n) {
                    let i = choose|i: int|
                        0 <= i < s.drop_first().len() && s.drop_first()[i].name == n;
                    assert(s[i + 1].name == n);
                }
                if spec_contains_name(s, n) {
                    let i = choose|i: int| 0 <= i < s.len() && s[i].name == n;
                    assert(s.drop_first()[i - 1].name == n);
                }
            }
        }
    }
}

/// With pairwise-distinct names, a lookup answers with the configuration of
/// the one entry carrying the name: first match and only match agree, so
/// resolution is case-sensitive exact match against a single entry.
pub proof fn lemma_lookup_unique(s: Seq<EndpointView>, n: Seq<char>, i: int)
    requires
        spec_names_unique(s),
        0 <= i < s.len(),
        s[i].name == n,
    ensures
        spec_lookup(s, n) == Some(s[i].config),
    decreases i,
{
    if i > 0 {
        assert(s[0].name != n);
        assert(s.drop_first()[i - 1] == s[i]);
        assert forall|a: int, b: int| 0 <= a < b < s.drop_first().len() implies s.drop_first()[a].name
            != s.drop_first()[b].name by {
            assert(s.drop_first()[a] == s[a + 1]);
            assert(s.drop_first()[b] == s[b + 1]);
        }
        lemma_lookup_unique(s.drop_first(), n, i - 1);
    }
}

impl ConfigSnapshot {
    /// An empty snapshot: version zero, no endpoints.
    pub fn empty() -> (s: ConfigSnapshot)
        ensures
            s@.version == 0,
            s@.loaded_at == 0,
            s@.endpoints =~= Seq::<EndpointView>::empty(),
    {
        ConfigSnapshot { version: 0, loaded_at: 0, endpoints: Vec::new() }
    }

    /// Returns the configuration of the endpoint named `name`, or nothing
    /// when the name is absent from this snapshot. Case-sensitive exact
    /// match.
    pub fn lookup(&self, name: &String) -> (r: Option<&EndpointConfig>)
        ensures
            match r {
                Some(c) => spec_lookup(self@.endpoints, name@) == Some(c@),
                None => spec_lookup(self@.endpoints, name@) is None,
            },
    {
        let ghost v = self@.endpoints;
        let n: usize = self.endpoints.len();
        let mut i: usize = 0;
        proof {
            assert(v.skip(0) =~= v);
        }
        while i < n
            invariant
                i <= n,
                n == self.endpoints.len(),
                v == self@.endpoints,
                spec_lookup(v, name@) == spec_lookup(v.skip(i as int), name@),
            decreases n - i,
        {
            assert(v.skip(i as int)[0] == v[i as int]);
            assert(v[i as int] == self.endpoints@[i as int]@);
            if self.endpoints[i].name.eq(name) {
                assert(spec_lookup(v.skip(i as int), name@) == Some(v[i as int].config));
                return Some(&self.endpoints[i].config);
            }
            proof {
                assert(v.skip(i as int).drop_first() =~= v.skip(i as int + 1));
            }
            i += 1;
        }
        assert(v.skip(n as int) =~= Seq::<EndpointView>::empty());
        None
    }
}

/// What a reload was asked to install: either the entries parsed from the
/// configuration source, or the fact that the source could not be read or
/// parsed (with the reader's diagnostic). The source's exact format is the
/// reader's business; the store only validates and publishes entries.
pub enum ReloadSource {
    Parsed { endpoints: Vec<Endpoint> },
    Unreadable { detail: String },
}

/// The mathematical value of a `ReloadSource`.
pub enum ReloadSourceView {
    Parsed { endpoints: Seq<EndpointView> },
    Unreadable { detail: Seq<char> },
}

impl View for ReloadSource {
    type V = ReloadSourceView;

    open spec fn view(&self) -> ReloadSourceView {
        match self {
            ReloadSource::Parsed { endpoints } => ReloadSourceView::Parsed {
                endpoints: endpoints@.map_values(|e: Endpoint| e@),
            },
            ReloadSource::Unreadable { detail } => ReloadSourceView::Unreadable {
                detail: detail@,
            },
        }
    }
}

/// The error a reload of `src` is rejected with, if any: the reader's
/// diagnostic for an unreadable source, else the first validation error of
/// the parsed entries.
pub open spec fn spec_reload_error(src: ReloadSourceView) -> Option<ConfigErrorView> {
    match src {
        ReloadSourceView::Unreadable { detail } => Some(ConfigErrorView::Unreadable { detail }),
        ReloadSourceView::Parsed { endpoints } => spec_validate(endpoints),
    }
}

/// A snapshot is well-formed when its entries would pass validation: usable
/// names and targets, names pairwise distinct.
pub open spec fn snapshot_wf(s: ConfigSnapshotView) -> bool {
    spec_entries_ok(s.endpoints)
}

/// The configuration store: holds the one current snapshot. Only `reload`
/// replaces it, and does so wholesale; readers fetch the current snapshot
/// (or look a name up in it) and are never shown a partially applied
/// configuration.
pub struct Store {
    pub snapshot: ConfigSnapshot,
}

impl View for Store {
    type V = ConfigSnapshotView;

    open spec fn view(&self) -> ConfigSnapshotView {
        self.snapshot@
    }
}

impl Store {
    /// A store holding the empty snapshot, version zero.
    pub fn new() -> (s: Store)
        ensures
            s@.version == 0,
            s@.endpoints =~= Seq::<EndpointView>::empty(),
            snapshot_wf(s@),
    {
        Store { snapshot: ConfigSnapshot::empty() }
    }

    /// Returns the currently active snapshot, whole. Never blocks on a
    /// reload and never shows a mix of old and new entries.
    pub fn get_snapshot(&self) -> (s: &ConfigSnapshot)
        ensures
            s@ == self@,
    {
        &self.snapshot
    }

    /// Convenience over `get_snapshot`: the configuration currently mapped
    /// to `name`, or nothing when the name is absent.
    pub fn lookup(&self, name: &String) -> (r: Option<&EndpointConfig>)
        ensures
            match r {
                Some(c) => spec_lookup(self@.endpoints, name@) == Some(c@),
                None => spec_lookup(self@.endpoints, name@) is None,
            },
    {
        self.snapshot.lookup(name)
    }

    /// Validates a new configuration and, on success, atomically replaces
    /// the active snapshot with one holding exactly the parsed entries, a
    /// version one higher, and the caller's load timestamp. On failure the
    /// old snapshot is kept untouched and the first error is reported:
    /// the reader's diagnostic for an unreadable source, or the offending
    /// entry's fault. There is no third outcome and no partially applied
    /// configuration.
    pub fn reload(&mut self, source: ReloadSource, now: u64) -> (r: Result<u64, ConfigError>)
        requires
            old(self)@.version < u64::MAX,
        ensures
            r is Ok <==> spec_reload_error(source@) is None,
            r matches Err(e) ==> Some(e@) == spec_reload_error(source@) && final(self)@ == old(self)@,
            r matches Ok(v) ==> {
                &&& v == old(self)@.version + 1
                &&& final(self)@.version == v
                &&& final(self)@.loaded_at == now
                &&& (source@ matches ReloadSourceView::Parsed { endpoints } && final(self)@.endpoints == endpoints)
                &&& snapshot_wf(final(self)@)
            },
    {
        let endpoints = match source {
            ReloadSource::Unreadable { detail } => {
                return Err(ConfigError::Unreadable { detail });
            },
            ReloadSource::Parsed { endpoints } => endpoints,
        };
        let ghost v = endpoints@.map_values(|e: Endpoint| e@);
        proof {
            assert(spec_reload_error(source@) == spec_validate(v));
        }
        let n: usize = endpoints.len();
        let mut i: usize = 0;
        while i < n
            invariant
                i <= n,
                n == endpoints.len(),
                v == endpoints@.map_values(|e: Endpoint| e@),
                spec_reload_error(source@) == spec_validate(v),
                spec_validate(v) == spec_validate_from(v, i as int),
            decreases n - i,
        {
            assert(v[i as int] == endpoints@[i as int]@);
            let name = &endpoints[i].name;
            if name.as_str().is_empty() {
                return Err(ConfigError::EmptyName);
            }
            if contains_char(name.as_str(), '/') {
                return Err(ConfigError::InvalidName { name: name.clone() });
            }
            if !valid_target(endpoints[i].config.target.as_str()) {
                return Err(
                    ConfigError::InvalidTarget {
                        name: name.clone(),
                        target: endpoints[i].config.target.clone(),
                    },
                );
            }
            let mut j: usize = 0;
            while j < i
                invariant
                    j <= i < n,
                    n == endpoints.len(),
                    v == endpoints@.map_values(|e: Endpoint| e@),
                    spec_reload_error(source@) == spec_validate(v),
                    spec_validate(v) == spec_validate_from(v, i as int),
                    name@ == v[i as int].name,
                    v[i as int].name.len() > 0,
                    !spec_contains_char(v[i as int].name, '/'),
                    spec_valid_target(v[i as int].config.target),
                    forall|k: int| 0 <= k < j ==> v[k].name != v[i as int].name,
                decreases i - j,
            {
                assert(v[j as int] == endpoints@[j as int]@);
                if endpoints[j].name.eq(name) {
                    return Err(ConfigError::DuplicateName { name: name.clone() });
                }
                j += 1;
            }
            i += 1;
        }
        proof {
            lemma_validate_none(v);
        }
        let version = self.snapshot.version + 1;
        self.snapshot = ConfigSnapshot { version, loaded_at: now, endpoints };
        Ok(version)
    }
}

} // verus!
