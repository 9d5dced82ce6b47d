//! The token cache that is kept on disk: entries keyed by scope and tenant,
//! each usable only while enough of its lifetime is left.
//!
//! The file holds one JSON document, `{"tokens": [...]}`, with one object
//! for each entry: `access_token`, `expires_at` in RFC 3339, `scope` and
//! `tenant_id`. This module writes and reads the text of the file and says
//! where the file lives and which mode it gets; the file itself is the
//! caller's.

use crate::error::{AppError, AppErrorView};
use crate::json::{
    items_view, json_of, member, members_view, named, parse, pretty, pretty_text_of, Json,
    JsonView, Member,
};
use crate::text::{str_eq, strings_view};
use crate::time::{
    from_rfc3339, instant_of, minutes_between, rfc3339_of, to_rfc3339, utc_now, whole_minutes,
    Timestamp,
};
use vstd::prelude::*;
use vstd::string::*;

verus! {

/// Seconds of remaining lifetime below which a token counts as expired.
pub const DEFAULT_BUFFER_SECS: u64 = 60;

/// Name of the directory that holds the cache file.
pub const CACHE_DIR_NAME: &'static str = "azure-aitoolsconnect";

/// Name of the cache file.
pub const CACHE_FILE_NAME: &'static str = "tokens.json";

/// Permission bits of the cache file: read and write for the owner only.
pub const CACHE_FILE_MODE: u32 = 0o600;

/// What is reported where the environment names no base directory.
pub const MSG_NO_DIRECTORY: &'static str = "Cannot determine cache directory";

/// What is reported of a cache file that is no JSON.
pub const MSG_NOT_JSON: &'static str = "the file holds no JSON document";

/// What is reported of a document without the list of the entries.
pub const MSG_NO_TOKENS: &'static str = "missing field `tokens`";

/// What is reported of a document whose entries are no list.
pub const MSG_TOKENS_NO_LIST: &'static str = "field `tokens` is no list";

/// What is reported of an entry without its token.
pub const MSG_NO_ACCESS_TOKEN: &'static str = "missing text field `access_token`";

/// What is reported of an entry without its expiry.
pub const MSG_NO_EXPIRES_AT: &'static str = "missing text field `expires_at`";

/// What is reported of an entry without its scope.
pub const MSG_NO_SCOPE: &'static str = "missing text field `scope`";

/// What is reported of an entry without its tenant.
pub const MSG_NO_TENANT_ID: &'static str = "missing text field `tenant_id`";

/// What is reported of an entry whose expiry names no point in time.
pub const MSG_BAD_EXPIRY: &'static str = "field `expires_at` names no point in time";

/// What is reported of an entry whose expiry cannot be written.
pub const MSG_EXPIRY_RANGE: &'static str = "an expiry is beyond the range of the calendar";

/// A single cached token entry.
#[derive(Debug)]
pub struct CachedTokenEntry {
    pub access_token: String,
    pub expires_at: Timestamp,
    pub scope: String,
    pub tenant_id: String,
}

pub ghost struct CachedTokenEntryView {
    pub access_token: Seq<char>,
    pub expires_at: Timestamp,
    pub scope: Seq<char>,
    pub tenant_id: Seq<char>,
}

impl View for CachedTokenEntry {
    type V = CachedTokenEntryView;

    open spec fn view(&self) -> CachedTokenEntryView {
        CachedTokenEntryView {
            access_token: self.access_token@,
            expires_at: self.expires_at,
            scope: self.scope@,
            tenant_id: self.tenant_id@,
        }
    }
}

impl Clone for CachedTokenEntry {
    fn clone(&self) -> (r: CachedTokenEntry)
        ensures
            r@ == self@,
    {
        CachedTokenEntry {
            access_token: self.access_token.clone(),
            expires_at: self.expires_at,
            scope: self.scope.clone(),
            tenant_id: self.tenant_id.clone(),
        }
    }
}

impl CachedTokenEntryView {
    /// The validity rule: at `now` more than `buffer_secs` seconds of
    /// lifetime are left.
    pub open spec fn valid_at(self, now: Timestamp, buffer_secs: u64) -> bool {
        now.total_nanos() + buffer_secs * 1_000_000_000 < self.expires_at.total_nanos()
    }

    /// The entry is the one for this scope and tenant.
    pub open spec fn has_key(self, scope: Seq<char>, tenant_id: Seq<char>) -> bool {
        self.scope == scope && self.tenant_id == tenant_id
    }

    /// The entry answers a lookup for this scope and tenant at `now`.
    pub open spec fn answers(
        self,
        scope: Seq<char>,
        tenant_id: Seq<char>,
        now: Timestamp,
        buffer_secs: u64,
    ) -> bool {
        self.has_key(scope, tenant_id) && self.valid_at(now, buffer_secs)
    }
}

impl CachedTokenEntry {
    /// Check if this token is still valid at `now` with the given buffer.
    pub fn is_valid_at(&self, now: &Timestamp, buffer_secs: u64) -> (r: bool)
        ensures
            r == self@.valid_at(*now, buffer_secs),
    {
        now.as_nanos() + (buffer_secs as i128) * 1_000_000_000 < self.expires_at.as_nanos()
    }

    /// Check if this token is still valid by the wall clock, with the
    /// 60-second buffer. The answer is that of `is_valid_at` for the moment
    /// at which the clock was read.
    pub fn is_valid(&self) -> (r: bool)
        ensures
            exists|now: Timestamp| r == #[trigger] self@.valid_at(now, DEFAULT_BUFFER_SECS),
    {
        let now = utc_now();
        let r = self.is_valid_at(&now, DEFAULT_BUFFER_SECS);
        assert(r == self@.valid_at(now, DEFAULT_BUFFER_SECS));
        r
    }

    /// Get remaining validity at `now` in whole minutes, rounded toward
    /// zero; negative once the token has expired.
    pub fn remaining_minutes_at(&self, now: &Timestamp) -> (m: i64)
        ensures
            m == whole_minutes(self.expires_at.total_nanos() - now.total_nanos()),
    {
        minutes_between(now, &self.expires_at)
    }

    /// Get remaining validity in minutes by the wall clock.
    pub fn remaining_minutes(&self) -> (m: i64)
        ensures
            exists|now: Timestamp|
                m == whole_minutes(self.expires_at.total_nanos() - #[trigger] now.total_nanos()),
    {
        let now = utc_now();
        let m = self.remaining_minutes_at(&now);
        assert(m == whole_minutes(self.expires_at.total_nanos() - now.total_nanos()));
        m
    }

    /// The entry for a token that was issued at `now` and lasts
    /// `expires_in_secs` seconds, or `None` where its expiry is no valid
    /// point in time: an entry that is issued can always be written to the
    /// cache file.
    pub fn issued(
        access_token: String,
        scope: String,
        tenant_id: String,
        now: &Timestamp,
        expires_in_secs: u64,
    ) -> (r: Option<CachedTokenEntry>)
        ensures
            match r {
                Some(e) => e@ == (CachedTokenEntryView {
                    access_token: access_token@,
                    expires_at: Timestamp {
                        secs: (now.secs + expires_in_secs) as i64,
                        nanos: now.nanos,
                    },
                    scope: scope@,
                    tenant_id: tenant_id@,
                }) && e.expires_at.valid() && expiry_is_valid(*now, expires_in_secs),
                None => !expiry_is_valid(*now, expires_in_secs),
            },
    {
        match now.plus_secs(expires_in_secs) {
            Some(expires_at) => {
                if expires_at.is_valid() {
                    Some(CachedTokenEntry { access_token, expires_at, scope, tenant_id })
                } else {
                    None
                }
            },
            None => None,
        }
    }
}

/// Whether a token that is issued at `now` for `expires_in_secs` seconds
/// expires at a valid point in time.
pub open spec fn expiry_is_valid(now: Timestamp, expires_in_secs: u64) -> bool {
    crate::time::MIN_SECS <= now.secs + expires_in_secs <= crate::time::MAX_SECS && now.nanos
        < crate::time::NANOS_PER_SEC
}

/// Whether every entry expires at a valid point in time.
pub open spec fn entries_valid(entries: Seq<CachedTokenEntryView>) -> bool {
    forall|i: int| 0 <= i < entries.len() ==> (#[trigger] entries[i]).expires_at.valid()
}

/// The views of a list of entries, in order.
pub open spec fn entries_view(v: Seq<CachedTokenEntry>) -> Seq<CachedTokenEntryView> {
    v.map_values(|e: CachedTokenEntry| e@)
}

/// The test "valid at `now`".
pub open spec fn is_live(now: Timestamp, buffer_secs: u64) -> spec_fn(CachedTokenEntryView) -> bool {
    |e: CachedTokenEntryView| e.valid_at(now, buffer_secs)
}

/// The test "for another scope or tenant".
pub open spec fn is_other(scope: Seq<char>, tenant_id: Seq<char>) -> spec_fn(
    CachedTokenEntryView,
) -> bool {
    |e: CachedTokenEntryView| !e.has_key(scope, tenant_id)
}

/// The entries of `s` that pass `pred`, in their order.
pub open spec fn passing(
    s: Seq<CachedTokenEntryView>,
    pred: spec_fn(CachedTokenEntryView) -> bool,
) -> Seq<CachedTokenEntryView>
    decreases s.len(),
{
    if s.len() == 0 {
        Seq::empty()
    } else if pred(s.last()) {
        passing(s.drop_last(), pred).push(s.last())
    } else {
        passing(s.drop_last(), pred)
    }
}

/// The entries that are valid at `now`, in their order.
pub open spec fn live(
    entries: Seq<CachedTokenEntryView>,
    now: Timestamp,
    buffer_secs: u64,
) -> Seq<CachedTokenEntryView> {
    passing(entries, is_live(now, buffer_secs))
}

/// The entries after `entry` was inserted: those for other keys, in their
/// order, then `entry`.
pub open spec fn inserted(
    entries: Seq<CachedTokenEntryView>,
    entry: CachedTokenEntryView,
) -> Seq<CachedTokenEntryView> {
    passing(entries, is_other(entry.scope, entry.tenant_id)).push(entry)
}

/// The first entry that answers a lookup, if any does.
pub open spec fn lookup(
    entries: Seq<CachedTokenEntryView>,
    scope: Seq<char>,
    tenant_id: Seq<char>,
    now: Timestamp,
    buffer_secs: u64,
) -> Option<CachedTokenEntryView>
    decreases entries.len(),
{
    if entries.len() == 0 {
        None
    } else if entries.first().answers(scope, tenant_id, now, buffer_secs) {
        Some(entries.first())
    } else {
        lookup(entries.drop_first(), scope, tenant_id, now, buffer_secs)
    }
}

/// At most one entry per scope and tenant.
pub open spec fn keys_unique(entries: Seq<CachedTokenEntryView>) -> bool {
    forall|i: int, j: int|
        0 <= i < j < entries.len() ==> !(#[trigger] entries[i]).has_key(
            (#[trigger] entries[j]).scope,
            entries[j].tenant_id,
        )
}

/// Some entry is the one for this scope and tenant.
pub open spec fn has_entry_for(
    entries: Seq<CachedTokenEntryView>,
    scope: Seq<char>,
    tenant_id: Seq<char>,
) -> bool {
    exists|i: int| 0 <= i < entries.len() && (#[trigger] entries[i]).has_key(scope, tenant_id)
}

/// Where the cache file lives, relative to a directory that the environment
/// names.
#[derive(Debug)]
pub struct CacheLocation {
    /// The environment variable that names the base directory.
    pub base_variable: &'static str,
    /// The directories below the base, outermost first.
    pub directories: Vec<&'static str>,
    /// The name of the file.
    pub file_name: &'static str,
}

/// What saving the cache takes.
#[derive(Debug)]
pub struct SavePlan {
    /// The directory to create, as path components.
    pub directory: Vec<String>,
    /// The name of the file below it.
    pub file_name: &'static str,
    /// The content of the file.
    pub content: String,
    /// The mode of the file, where the platform has modes: the owner may
    /// read and write, nobody else anything.
    pub mode: Option<u32>,
}

/// The directory of the cache below a base directory, as path components.
pub open spec fn cache_dir_path(windows: bool, base: Seq<char>) -> Seq<Seq<char>> {
    if windows {
        seq![base, CACHE_DIR_NAME@]
    } else {
        seq![base, ".cache"@, CACHE_DIR_NAME@]
    }
}

/// The step at which the cache file could not be handled.
#[derive(Debug, Clone, Copy, PartialEq, Eq, Structural)]
pub enum CacheStep {
    Read,
    Parse,
    CreateDirectory,
    Serialize,
    Write,
    SetPermissions,
    Remove,
}

impl CacheStep {
    /// What the error says of the step.
    pub open spec fn words(self) -> Seq<char> {
        match self {
            CacheStep::Read => "Failed to read token cache: "@,
            CacheStep::Parse => "Failed to parse token cache: "@,
            CacheStep::CreateDirectory => "Failed to create cache directory: "@,
            CacheStep::Serialize => "Failed to serialize token cache: "@,
            CacheStep::Write => "Failed to write token cache: "@,
            CacheStep::SetPermissions => "Failed to set cache file permissions: "@,
            CacheStep::Remove => "Failed to remove token cache: "@,
        }
    }

    /// The error for a failure at this step: a configuration error that
    /// names the step and gives the reason.
    pub fn failure(self, reason: &str) -> (e: AppError)
        ensures
            e@ == AppErrorView::Config(self.words() + reason@),
    {
        let mut t = match self {
            CacheStep::Read => "Failed to read token cache: ".to_owned(),
            CacheStep::Parse => "Failed to parse token cache: ".to_owned(),
            CacheStep::CreateDirectory => "Failed to create cache directory: ".to_owned(),
            CacheStep::Serialize => "Failed to serialize token cache: ".to_owned(),
            CacheStep::Write => "Failed to write token cache: ".to_owned(),
            CacheStep::SetPermissions => "Failed to set cache file permissions: ".to_owned(),
            CacheStep::Remove => "Failed to remove token cache: ".to_owned(),
        };
        t.append(reason);
        AppError::Config(t)
    }
}

/// On-disk token cache file.
#[derive(Debug)]
pub struct TokenCacheFile {
    pub tokens: Vec<CachedTokenEntry>,
}

impl View for TokenCacheFile {
    type V = Seq<CachedTokenEntryView>;

    open spec fn view(&self) -> Seq<CachedTokenEntryView> {
        entries_view(self.tokens@)
    }
}

impl Default for TokenCacheFile {
    fn default() -> (r: TokenCacheFile)
        ensures
            r@ == Seq::<CachedTokenEntryView>::empty(),
    {
        let r = TokenCacheFile { tokens: Vec::new() };
        assert(r@ =~= Seq::<CachedTokenEntryView>::empty());
        r
    }
}

proof fn lemma_filter_step(
    s: Seq<CachedTokenEntryView>,
    pred: spec_fn(CachedTokenEntryView) -> bool,
    i: int,
)
    requires
        0 <= i < s.len(),
    ensures
        passing(s.take(i + 1), pred) == if pred(s[i]) {
            passing(s.take(i), pred).push(s[i])
        } else {
            passing(s.take(i), pred)
        },
{
    assert(s.take(i + 1).drop_last() =~= s.take(i));
}

proof fn lemma_lookup(
    entries: Seq<CachedTokenEntryView>,
    scope: Seq<char>,
    tenant_id: Seq<char>,
    now: Timestamp,
    buffer_secs: u64,
    i: int,
)
    requires
        0 <= i <= entries.len(),
        forall|k: int| 0 <= k < i ==> !entries[k].answers(scope, tenant_id, now, buffer_secs),
        i < entries.len() ==> entries[i].answers(scope, tenant_id, now, buffer_secs),
    ensures
        lookup(entries, scope, tenant_id, now, buffer_secs) == if i < entries.len() {
            Some(entries[i])
        } else {
            None
        },
    decreases entries.len(),
{
    if entries.len() == 0 {
    } else if i == 0 {
    } else {
        let rest = entries.drop_first();
        assert forall|k: int| 0 <= k < i - 1 implies !rest[k].answers(
            scope,
            tenant_id,
            now,
            buffer_secs,
        ) by {
            assert(rest[k] == entries[k + 1]);
        }
        lemma_lookup(rest, scope, tenant_id, now, buffer_secs, i - 1);
    }
}

impl TokenCacheFile {
    /// Where the cache file lives: below `LOCALAPPDATA` on Windows, below
    /// `.cache` in `HOME` elsewhere.
    pub fn cache_location(windows: bool) -> (r: CacheLocation)
        ensures
            r.file_name@ == CACHE_FILE_NAME@,
            windows ==> r.base_variable@ == "LOCALAPPDATA"@ && r.directories.len() == 1
                && r.directories[0]@ == CACHE_DIR_NAME@,
            !windows ==> r.base_variable@ == "HOME"@ && r.directories.len() == 2
                && r.directories[0]@ == ".cache"@ && r.directories[1]@ == CACHE_DIR_NAME@,
    {
        let mut directories: Vec<&'static str> = Vec::new();
        if windows {
            directories.push(CACHE_DIR_NAME);
            CacheLocation { base_variable: "LOCALAPPDATA", directories, file_name: CACHE_FILE_NAME }
        } else {
            directories.push(".cache");
            directories.push(CACHE_DIR_NAME);
            CacheLocation { base_variable: "HOME", directories, file_name: CACHE_FILE_NAME }
        }
    }

    /// The directory of the cache as path components, outermost first:
    /// the base directory that the environment names, then the directories
    /// of the cache. Without a base directory there is none.
    pub fn cache_dir(windows: bool, base: Option<String>) -> (r: Option<Vec<String>>)
        ensures
            match r {
                Some(path) => base is Some && strings_view(path@) == cache_dir_path(
                    windows,
                    base->0@,
                ),
                None => base is None,
            },
    {
        match base {
            None => None,
            Some(b) => {
                let mut path: Vec<String> = Vec::new();
                path.push(b);
                if !windows {
                    path.push(".cache".to_owned());
                }
                path.push(CACHE_DIR_NAME.to_owned());
                assert(strings_view(path@) =~= cache_dir_path(windows, b@));
                Some(path)
            },
        }
    }

    /// What saving the cache takes: the directory to create, the file to
    /// write below it with its content, and the mode to give the file
    /// where the platform has modes. Without a cache directory nothing can
    /// be saved, nor can a cache that cannot be written as text. Where every
    /// entry expires at a valid point in time, every expiry can be written.
    pub fn save(&self, windows: bool, base: Option<String>, unix: bool) -> (r: Result<
        SavePlan,
        AppError,
    >)
        ensures
            match r {
                Ok(plan) => base is Some && strings_view(plan.directory@) == cache_dir_path(
                    windows,
                    base->0@,
                ) && plan.file_name@ == CACHE_FILE_NAME@ && plan.mode == (if unix {
                    Some(CACHE_FILE_MODE)
                } else {
                    None
                }) && encoded(self@) == Ok::<Seq<char>, AppErrorView>(plan.content@),
                Err(e) => if base is None {
                    e@ == AppErrorView::Config(MSG_NO_DIRECTORY@)
                } else {
                    encoded(self@) == Err::<Seq<char>, AppErrorView>(e@)
                },
            },
            base is Some && entries_valid(self@) ==> stamped(self@) is Some,
    {
        let directory = match TokenCacheFile::cache_dir(windows, base) {
            None => {
                return Err(AppError::Config(MSG_NO_DIRECTORY.to_owned()));
            },
            Some(directory) => directory,
        };
        match self.encode() {
            Ok(content) => Ok(
                SavePlan {
                    directory,
                    file_name: CACHE_FILE_NAME,
                    content,
                    mode: if unix {
                        Some(CACHE_FILE_MODE)
                    } else {
                        None
                    },
                },
            ),
            Err(e) => Err(e),
        }
    }

    /// Whether clearing the cache has a file to delete: only where the
    /// cache has a directory and the file is there.
    pub fn clear(has_directory: bool, file_is_there: bool) -> (r: bool)
        ensures
            r == (has_directory && file_is_there),
    {
        has_directory && file_is_there
    }

    /// The cache made of the entries read from disk that are valid at `now`;
    /// the expired ones are dropped.
    pub fn load_at(tokens: Vec<CachedTokenEntry>, now: &Timestamp) -> (r: TokenCacheFile)
        ensures
            r@ == live(entries_view(tokens@), *now, DEFAULT_BUFFER_SECS),
    {
        let ghost all = entries_view(tokens@);
        let mut kept: Vec<CachedTokenEntry> = Vec::new();
        let mut i: usize = 0;
        assert(all.take(0) =~= Seq::<CachedTokenEntryView>::empty());
        while i < tokens.len()
            invariant
                i <= tokens.len(),
                all == entries_view(tokens@),
                entries_view(kept@) == live(all.take(i as int), *now, DEFAULT_BUFFER_SECS),
            decreases tokens.len() - i,
        {
            proof {
                lemma_filter_step(all, is_live(*now, DEFAULT_BUFFER_SECS), i as int);
            }
            if tokens[i].is_valid_at(now, DEFAULT_BUFFER_SECS) {
                let ghost before = entries_view(kept@);
                kept.push(tokens[i].clone());
                assert(entries_view(kept@) =~= before.push(all[i as int]));
            }
            i += 1;
        }
        assert(all.take(tokens.len() as int) =~= all);
        TokenCacheFile { tokens: kept }
    }

    /// The cache for the content of the cache file, if there is a file, at
    /// `now`: without a file the cache is empty; else it holds the entries
    /// of the file that are valid at `now`, and a file that cannot be read
    /// as a cache is an error.
    pub fn read_at(content: Option<&str>, now: &Timestamp) -> (r: Result<TokenCacheFile, AppError>)
        ensures
            match r {
                Ok(cache) => loaded(str_opt_view(content), *now) == Ok::<
                    Seq<CachedTokenEntryView>,
                    AppErrorView,
                >(cache@),
                Err(e) => loaded(str_opt_view(content), *now) == Err::<
                    Seq<CachedTokenEntryView>,
                    AppErrorView,
                >(e@),
            },
    {
        match content {
            None => Ok(TokenCacheFile::default()),
            Some(text) => match TokenCacheFile::decode(text) {
                Ok(entries) => Ok(TokenCacheFile::load_at(entries, now)),
                Err(e) => Err(e),
            },
        }
    }

    /// The cache for the content of the cache file, if there is a file, by
    /// the wall clock.
    pub fn load(content: Option<&str>) -> (r: Result<TokenCacheFile, AppError>)
        ensures
            exists|now: Timestamp|
                match r {
                    Ok(cache) => #[trigger] loaded(str_opt_view(content), now) == Ok::<
                        Seq<CachedTokenEntryView>,
                        AppErrorView,
                    >(cache@),
                    Err(e) => loaded(str_opt_view(content), now) == Err::<
                        Seq<CachedTokenEntryView>,
                        AppErrorView,
                    >(e@),
                },
    {
        let now = utc_now();
        let r = TokenCacheFile::read_at(content, &now);
        assert(match r {
            Ok(cache) => loaded(str_opt_view(content), now) == Ok::<
                Seq<CachedTokenEntryView>,
                AppErrorView,
            >(cache@),
            Err(e) => loaded(str_opt_view(content), now) == Err::<
                Seq<CachedTokenEntryView>,
                AppErrorView,
            >(e@),
        });
        r
    }

    /// Get the first entry for the given scope and tenant that is valid at
    /// `now`.
    pub fn get_valid_token_at(&self, scope: &str, tenant_id: &str, now: &Timestamp) -> (r: Option<
        &CachedTokenEntry,
    >)
        ensures
            match r {
                Some(e) => lookup(self@, scope@, tenant_id@, *now, DEFAULT_BUFFER_SECS) == Some(
                    e@,
                ),
                None => lookup(self@, scope@, tenant_id@, *now, DEFAULT_BUFFER_SECS) is None,
            },
    {
        let mut i: usize = 0;
        while i < self.tokens.len()
            invariant
                i <= self.tokens.len(),
                forall|k: int|
                    0 <= k < i ==> !self@[k].answers(scope@, tenant_id@, *now, DEFAULT_BUFFER_SECS),
            decreases self.tokens.len() - i,
        {
            let t = &self.tokens[i];
            if str_eq(t.scope.as_str(), scope) && str_eq(t.tenant_id.as_str(), tenant_id)
                && t.is_valid_at(now, DEFAULT_BUFFER_SECS) {
                proof {
                    lemma_lookup(self@, scope@, tenant_id@, *now, DEFAULT_BUFFER_SECS, i as int);
                }
                return Some(t);
            }
            i += 1;
        }
        proof {
            lemma_lookup(self@, scope@, tenant_id@, *now, DEFAULT_BUFFER_SECS, i as int);
        }
        None
    }

    /// Get a valid cached token for the given scope and tenant, by the wall
    /// clock.
    pub fn get_valid_token(&self, scope: &str, tenant_id: &str) -> (r: Option<&CachedTokenEntry>)
        ensures
            exists|now: Timestamp|
                match r {
                    Some(e) => #[trigger] lookup(
                        self@,
                        scope@,
                        tenant_id@,
                        now,
                        DEFAULT_BUFFER_SECS,
                    ) == Some(e@),
                    None => lookup(self@, scope@, tenant_id@, now, DEFAULT_BUFFER_SECS) is None,
                },
    {
        let now = utc_now();
        let r = self.get_valid_token_at(scope, tenant_id, &now);
        assert(match r {
            Some(e) => lookup(self@, scope@, tenant_id@, now, DEFAULT_BUFFER_SECS) == Some(e@),
            None => lookup(self@, scope@, tenant_id@, now, DEFAULT_BUFFER_SECS) is None,
        });
        r
    }

    /// Insert or update a token entry: every entry for the same scope and
    /// tenant leaves, the others keep their order, and the new entry comes
    /// last.
    pub fn insert(&mut self, entry: CachedTokenEntry)
        ensures
            final(self)@ == inserted(old(self)@, entry@),
    {
        let ghost all = self@;
        let ghost pred = is_other(entry.scope@, entry.tenant_id@);
        let mut kept: Vec<CachedTokenEntry> = Vec::new();
        let mut i: usize = 0;
        assert(all.take(0) =~= Seq::<CachedTokenEntryView>::empty());
        while i < self.tokens.len()
            invariant
                i <= self.tokens.len(),
                all == self@,
                pred == is_other(entry.scope@, entry.tenant_id@),
                entries_view(kept@) == passing(all.take(i as int), pred),
            decreases self.tokens.len() - i,
        {
            proof {
                lemma_filter_step(all, pred, i as int);
            }
            let t = &self.tokens[i];
            if !(str_eq(t.scope.as_str(), entry.scope.as_str()) && str_eq(
                t.tenant_id.as_str(),
                entry.tenant_id.as_str(),
            )) {
                let ghost before = entries_view(kept@);
                kept.push(t.clone());
                assert(entries_view(kept@) =~= before.push(all[i as int]));
            }
            i += 1;
        }
        assert(all.take(self.tokens.len() as int) =~= all);
        let ghost before = entries_view(kept@);
        let ghost e = entry@;
        kept.push(entry);
        assert(entries_view(kept@) =~= before.push(e));
        self.tokens = kept;
    }
}

/// An entry as it stands in the document on disk, with its expiry written
/// as `stamp`: an object with the token, the expiry, the scope and the
/// tenant, each as text.
pub open spec fn entry_json(e: CachedTokenEntryView, stamp: Seq<char>) -> JsonView {
    JsonView::Object(
        seq![
            named("access_token"@, JsonView::Text(e.access_token)),
            named("expires_at"@, JsonView::Text(stamp)),
            named("scope"@, JsonView::Text(e.scope)),
            named("tenant_id"@, JsonView::Text(e.tenant_id)),
        ],
    )
}

/// The document on disk: one object whose member `tokens` lists the
/// entries.
pub open spec fn document_json(items: Seq<JsonView>) -> JsonView {
    JsonView::Object(seq![named("tokens"@, JsonView::Array(items))])
}

/// The entries as they stand in the document, each with its expiry written
/// in RFC 3339; none where an expiry cannot be written.
pub open spec fn stamped(entries: Seq<CachedTokenEntryView>) -> Option<Seq<JsonView>>
    decreases entries.len(),
{
    if entries.len() == 0 {
        Some(Seq::empty())
    } else {
        match stamped(entries.drop_last()) {
            None => None,
            Some(before) => match rfc3339_of(
                entries.last().expires_at.secs,
                entries.last().expires_at.nanos,
            ) {
                Some(stamp) => Some(before.push(entry_json(entries.last(), stamp))),
                None => None,
            },
        }
    }
}

/// The text of the cache file for its entries, or the error that is
/// reported where it cannot be written.
pub open spec fn encoded(entries: Seq<CachedTokenEntryView>) -> Result<Seq<char>, AppErrorView> {
    match stamped(entries) {
        None => Err(AppErrorView::Config(CacheStep::Serialize.words() + MSG_EXPIRY_RANGE@)),
        Some(items) => match pretty_text_of(document_json(items)) {
            Ok(text) => Ok(text),
            Err(e) => Err(AppErrorView::Config(CacheStep::Serialize.words() + e)),
        },
    }
}

/// The entry that an item of the document holds, where `expires_at` is the
/// point in time that its expiry names, if it names one. An item that
/// lacks one of the four texts holds no entry, nor does one whose expiry
/// names no point in time; the message says what is wrong first.
pub open spec fn entry_of(item: JsonView, expires_at: Option<Timestamp>) -> Result<
    CachedTokenEntryView,
    Seq<char>,
> {
    if item.text_at("access_token"@) is None {
        Err(MSG_NO_ACCESS_TOKEN@)
    } else if item.text_at("expires_at"@) is None {
        Err(MSG_NO_EXPIRES_AT@)
    } else if item.text_at("scope"@) is None {
        Err(MSG_NO_SCOPE@)
    } else if item.text_at("tenant_id"@) is None {
        Err(MSG_NO_TENANT_ID@)
    } else if expires_at is None {
        Err(MSG_BAD_EXPIRY@)
    } else {
        Ok(
            CachedTokenEntryView {
                access_token: item.text_at("access_token"@)->0,
                expires_at: expires_at->0,
                scope: item.text_at("scope"@)->0,
                tenant_id: item.text_at("tenant_id"@)->0,
            },
        )
    }
}

/// The point in time that the expiry of an item names, if it names one.
pub open spec fn expiry_of(item: JsonView) -> Option<Timestamp> {
    match item.text_at("expires_at"@) {
        Some(text) => match instant_of(text) {
            Some((secs, nanos)) => Some(Timestamp { secs, nanos }),
            None => None,
        },
        None => None,
    }
}

/// The entries that the items of a document hold, in their order; the
/// message of the first item that holds none, if there is one.
pub open spec fn entries_of(items: Seq<JsonView>) -> Result<Seq<CachedTokenEntryView>, Seq<char>>
    decreases items.len(),
{
    if items.len() == 0 {
        Ok(Seq::empty())
    } else {
        match entries_of(items.drop_last()) {
            Err(m) => Err(m),
            Ok(before) => match entry_of(items.last(), expiry_of(items.last())) {
                Ok(e) => Ok(before.push(e)),
                Err(m) => Err(m),
            },
        }
    }
}

/// The items of a document, or what is wrong with it: it has to be an
/// object whose member `tokens` is a list.
pub open spec fn items_of(document: JsonView) -> Result<Seq<JsonView>, Seq<char>> {
    match document.member("tokens"@) {
        None => Err(MSG_NO_TOKENS@),
        Some(tokens) => match tokens.items() {
            None => Err(MSG_TOKENS_NO_LIST@),
            Some(items) => Ok(items),
        },
    }
}

/// The view of an optional text.
pub open spec fn str_opt_view(s: Option<&str>) -> Option<Seq<char>> {
    match s {
        Some(t) => Some(t@),
        None => None,
    }
}

/// The cache for the content of the cache file, if there is a file, at
/// `now`: empty without a file, else the entries of the file that are valid
/// at `now`, or the error of a file that holds no cache.
pub open spec fn loaded(content: Option<Seq<char>>, now: Timestamp) -> Result<
    Seq<CachedTokenEntryView>,
    AppErrorView,
> {
    match content {
        None => Ok(Seq::empty()),
        Some(text) => match decoded(text) {
            Ok(entries) => Ok(live(entries, now, DEFAULT_BUFFER_SECS)),
            Err(e) => Err(e),
        },
    }
}

/// The entries that the text of a cache file holds, or the error that is
/// reported where it holds none.
pub open spec fn decoded(text: Seq<char>) -> Result<Seq<CachedTokenEntryView>, AppErrorView> {
    match json_of(text) {
        None => Err(AppErrorView::Config(CacheStep::Parse.words() + MSG_NOT_JSON@)),
        Some(document) => match items_of(document) {
            Err(m) => Err(AppErrorView::Config(CacheStep::Parse.words() + m)),
            Ok(items) => match entries_of(items) {
                Err(m) => Err(AppErrorView::Config(CacheStep::Parse.words() + m)),
                Ok(entries) => Ok(entries),
            },
        },
    }
}

impl CachedTokenEntry {
    /// The entry as it stands in the document on disk, with its expiry
    /// written as `stamp`.
    pub fn to_json(&self, stamp: &str) -> (r: Json)
        ensures
            r@ == entry_json(self@, stamp@),
    {
        let mut m: Vec<Member> = Vec::new();
        m.push(member("access_token", Json::text(self.access_token.as_str())));
        m.push(member("expires_at", Json::text(stamp)));
        m.push(member("scope", Json::text(self.scope.as_str())));
        m.push(member("tenant_id", Json::text(self.tenant_id.as_str())));
        assert(members_view(m@) =~= entry_json(self@, stamp@)->Object_0);
        Json::object(m)
    }

    /// The entry that an item of the document holds, where `expires_at` is
    /// the point in time that its expiry names, if it names one; else the
    /// message that says what is wrong with the item.
    pub fn from_json(item: &Json, expires_at: Option<Timestamp>) -> (r: Result<
        CachedTokenEntry,
        &'static str,
    >)
        ensures
            match r {
                Ok(e) => entry_of(item@, expires_at) == Ok::<CachedTokenEntryView, Seq<char>>(
                    e@,
                ),
                Err(m) => entry_of(item@, expires_at) == Err::<CachedTokenEntryView, Seq<char>>(
                    m@,
                ),
            },
    {
        let access_token = match item.text_at("access_token") {
            Some(t) => t,
            None => {
                return Err(MSG_NO_ACCESS_TOKEN);
            },
        };
        if item.text_at("expires_at").is_none() {
            return Err(MSG_NO_EXPIRES_AT);
        }
        let scope = match item.text_at("scope") {
            Some(t) => t,
            None => {
                return Err(MSG_NO_SCOPE);
            },
        };
        let tenant_id = match item.text_at("tenant_id") {
            Some(t) => t,
            None => {
                return Err(MSG_NO_TENANT_ID);
            },
        };
        match expires_at {
            Some(expires_at) => Ok(
                CachedTokenEntry {
                    access_token: access_token.to_owned(),
                    expires_at,
                    scope: scope.to_owned(),
                    tenant_id: tenant_id.to_owned(),
                },
            ),
            None => Err(MSG_BAD_EXPIRY),
        }
    }

    /// The point in time that the expiry of an item names, if it names
    /// one.
    pub fn expiry(item: &Json) -> (r: Option<Timestamp>)
        ensures
            r == expiry_of(item@),
    {
        match item.text_at("expires_at") {
            Some(text) => from_rfc3339(text),
            None => None,
        }
    }
}

impl TokenCacheFile {
    /// The document on disk for the items that stand for the entries.
    pub fn document(items: Vec<Json>) -> (r: Json)
        ensures
            r@ == document_json(items_view(items@)),
    {
        let ghost all = items_view(items@);
        let mut m: Vec<Member> = Vec::new();
        m.push(member("tokens", Json::array(items)));
        assert(members_view(m@) =~= document_json(all)->Object_0);
        Json::object(m)
    }

    /// The items of a document, or the message that says what is wrong
    /// with it.
    pub fn items(document: &Json) -> (r: Result<&Vec<Json>, &'static str>)
        ensures
            match r {
                Ok(items) => items_of(document@) == Ok::<Seq<JsonView>, Seq<char>>(
                    items_view(items@),
                ),
                Err(m) => items_of(document@) == Err::<Seq<JsonView>, Seq<char>>(m@),
            },
    {
        match document.get("tokens") {
            None => Err(MSG_NO_TOKENS),
            Some(tokens) => match tokens.as_array() {
                None => Err(MSG_TOKENS_NO_LIST),
                Some(items) => Ok(items),
            },
        }
    }

    /// The text of the cache file: the document of the entries, each with
    /// its expiry in RFC 3339, as indented JSON. Where every entry expires
    /// at a valid point in time, every expiry can be written.
    pub fn encode(&self) -> (r: Result<String, AppError>)
        ensures
            match r {
                Ok(text) => encoded(self@) == Ok::<Seq<char>, AppErrorView>(text@),
                Err(e) => encoded(self@) == Err::<Seq<char>, AppErrorView>(e@),
            },
            entries_valid(self@) ==> stamped(self@) is Some,
    {
        let ghost all = self@;
        let mut items: Vec<Json> = Vec::new();
        let mut i: usize = 0;
        assert(all.take(0) =~= Seq::<CachedTokenEntryView>::empty());
        assert(items_view(items@) =~= Seq::<JsonView>::empty());
        while i < self.tokens.len()
            invariant
                i <= self.tokens.len(),
                all == self@,
                stamped(all.take(i as int)) == Some(items_view(items@)),
            decreases self.tokens.len() - i,
        {
            assert(all.take(i + 1).drop_last() =~= all.take(i as int));
            assert(all.take(i + 1).last() == self.tokens@[i as int]@);
            let ghost before = items_view(items@);
            match to_rfc3339(&self.tokens[i].expires_at) {
                Some(stamp) => {
                    let item = self.tokens[i].to_json(stamp.as_str());
                    items.push(item);
                    assert(items_view(items@) =~= before.push(item@));
                },
                None => {
                    proof {
                        lemma_stamped_fails(all, i as int);
                        assert(!all[i as int].expires_at.valid());
                    }
                    return Err(CacheStep::Serialize.failure(MSG_EXPIRY_RANGE));
                },
            }
            i += 1;
        }
        assert(all.take(self.tokens.len() as int) =~= all);
        match pretty(&TokenCacheFile::document(items)) {
            Ok(text) => Ok(text),
            Err(e) => Err(CacheStep::Serialize.failure(e.as_str())),
        }
    }

    /// The entries that a document holds, in their order, or the message
    /// that says what is wrong with it.
    pub fn entries(document: &Json) -> (r: Result<Vec<CachedTokenEntry>, &'static str>)
        ensures
            match r {
                Ok(entries) => items_of(document@) matches Ok(items) && entries_of(items)
                    == Ok::<Seq<CachedTokenEntryView>, Seq<char>>(entries_view(entries@)),
                Err(m) => match items_of(document@) {
                    Ok(items) => entries_of(items) == Err::<
                        Seq<CachedTokenEntryView>,
                        Seq<char>,
                    >(m@),
                    Err(e) => e == m@,
                },
            },
    {
        let items = match TokenCacheFile::items(document) {
            Ok(items) => items,
            Err(m) => {
                return Err(m);
            },
        };
        let ghost all = items_view(items@);
        let mut entries: Vec<CachedTokenEntry> = Vec::new();
        let mut i: usize = 0;
        assert(all.take(0) =~= Seq::<JsonView>::empty());
        assert(entries_view(entries@) =~= Seq::<CachedTokenEntryView>::empty());
        while i < items.len()
            invariant
                i <= items.len(),
                all == items_view(items@),
                items_of(document@) == Ok::<Seq<JsonView>, Seq<char>>(all),
                entries_of(all.take(i as int)) == Ok::<Seq<CachedTokenEntryView>, Seq<char>>(
                    entries_view(entries@),
                ),
            decreases items.len() - i,
        {
            assert(all.take(i + 1).drop_last() =~= all.take(i as int));
            assert(all.take(i + 1).last() == items@[i as int]@);
            let ghost before = entries_view(entries@);
            match CachedTokenEntry::from_json(&items[i], CachedTokenEntry::expiry(&items[i])) {
                Ok(entry) => {
                    entries.push(entry);
                    assert(entries_view(entries@) =~= before.push(entry@));
                },
                Err(m) => {
                    proof {
                        lemma_entries_fail(all, i as int);
                    }
                    return Err(m);
                },
            }
            i += 1;
        }
        assert(all.take(items.len() as int) =~= all);
        Ok(entries)
    }

    /// The entries that the text of a cache file holds, in their order, or
    /// the error that says why it holds none.
    pub fn decode(text: &str) -> (r: Result<Vec<CachedTokenEntry>, AppError>)
        ensures
            match r {
                Ok(entries) => decoded(text@) == Ok::<Seq<CachedTokenEntryView>, AppErrorView>(
                    entries_view(entries@),
                ),
                Err(e) => decoded(text@) == Err::<Seq<CachedTokenEntryView>, AppErrorView>(e@),
            },
    {
        match parse(text) {
            None => Err(CacheStep::Parse.failure(MSG_NOT_JSON)),
            Some(document) => match TokenCacheFile::entries(&document) {
                Ok(entries) => Ok(entries),
                Err(m) => Err(CacheStep::Parse.failure(m)),
            },
        }
    }
}

/// Where the expiry of one entry cannot be written, the entries cannot be
/// stamped, however many follow.
proof fn lemma_stamped_fails(entries: Seq<CachedTokenEntryView>, i: int)
    requires
        0 <= i < entries.len(),
        rfc3339_of(entries[i].expires_at.secs, entries[i].expires_at.nanos) is None,
    ensures
        stamped(entries) is None,
    decreases entries.len(),
{
    if i < entries.len() - 1 {
        lemma_stamped_fails(entries.drop_last(), i);
    }
}

/// Where one item holds no entry and those before it do, the message is
/// that of this item, however many follow.
proof fn lemma_entries_fail(items: Seq<JsonView>, i: int)
    requires
        0 <= i < items.len(),
        entries_of(items.take(i)) is Ok,
        entry_of(items[i], expiry_of(items[i])) is Err,
    ensures
        entries_of(items) == Err::<Seq<CachedTokenEntryView>, Seq<char>>(
            entry_of(items[i], expiry_of(items[i]))->Err_0,
        ),
    decreases items.len(),
{
    if i < items.len() - 1 {
        assert(items.drop_last().take(i) =~= items.take(i));
        lemma_entries_fail(items.drop_last(), i);
    } else {
        assert(items.drop_last() =~= items.take(i));
    }
}

/// Validity at the boundary: an entry that expires exactly `buffer_secs`
/// seconds after `now` is not valid, one nanosecond later it is.
pub proof fn law_validity_boundary(e: CachedTokenEntryView, now: Timestamp, buffer_secs: u64)
    ensures
        e.expires_at.total_nanos() == now.total_nanos() + buffer_secs * 1_000_000_000
            ==> !e.valid_at(now, buffer_secs),
        e.expires_at.total_nanos() > now.total_nanos() + buffer_secs * 1_000_000_000
            ==> e.valid_at(now, buffer_secs),
        e.expires_at.total_nanos() < now.total_nanos() + buffer_secs * 1_000_000_000
            ==> !e.valid_at(now, buffer_secs),
{
}

proof fn lemma_filter_index(
    s: Seq<CachedTokenEntryView>,
    pred: spec_fn(CachedTokenEntryView) -> bool,
    k: int,
) -> (j: int)
    requires
        0 <= k < passing(s, pred).len(),
    ensures
        0 <= j < s.len(),
        s[j] == passing(s, pred)[k],
        pred(s[j]),
    decreases s.len(),
{
    if s.len() == 0 {
        0
    } else {
        let rest = s.drop_last();
        if pred(s.last()) && k == passing(rest, pred).len() {
            s.len() - 1
        } else {
            lemma_filter_index(rest, pred, k)
        }
    }
}

/// `x` is one of the entries of `s`.
pub open spec fn holds(s: Seq<CachedTokenEntryView>, x: CachedTokenEntryView) -> bool {
    exists|j: int| 0 <= j < s.len() && #[trigger] s[j] == x
}

proof fn lemma_filter_unique(s: Seq<CachedTokenEntryView>, pred: spec_fn(CachedTokenEntryView) -> bool)
    requires
        keys_unique(s),
    ensures
        keys_unique(passing(s, pred)),
        passing(s, pred).len() <= s.len(),
        forall|k: int| 0 <= k < passing(s, pred).len() ==> pred(#[trigger] passing(s, pred)[k]),
        forall|k: int| 0 <= k < passing(s, pred).len() ==> holds(s, #[trigger] passing(s, pred)[k]),
    decreases s.len(),
{
    if s.len() > 0 {
        let rest = s.drop_last();
        assert(keys_unique(rest)) by {
            assert forall|i: int, j: int| 0 <= i < j < rest.len() implies !(#[trigger] rest[i]).has_key(
                (#[trigger] rest[j]).scope,
                rest[j].tenant_id,
            ) by {
                assert(rest[i] == s[i]);
                assert(rest[j] == s[j]);
            }
        }
        lemma_filter_unique(rest, pred);
        let f = passing(s, pred);
        let fr = passing(rest, pred);
        assert forall|k: int| 0 <= k < f.len() implies holds(s, #[trigger] f[k]) by {
            if k < fr.len() {
                assert(holds(rest, fr[k]));
                let j = choose|j: int| 0 <= j < rest.len() && #[trigger] rest[j] == fr[k];
                assert(s[j] == rest[j]);
            } else {
                assert(s[s.len() - 1] == f[k]);
            }
        }
        assert forall|i: int, j: int| 0 <= i < j < f.len() implies !(#[trigger] f[i]).has_key(
            (#[trigger] f[j]).scope,
            f[j].tenant_id,
        ) by {
            if j < fr.len() {
                assert(f[i] == fr[i]);
                assert(f[j] == fr[j]);
            } else {
                assert(f[j] == s.last());
                assert(holds(rest, fr[i]));
                let a = choose|a: int| 0 <= a < rest.len() && #[trigger] rest[a] == fr[i];
                assert(s[a] == rest[a]);
                assert(s[s.len() - 1] == s.last());
            }
        }
    }
}

proof fn lemma_filter_removes_one(s: Seq<CachedTokenEntryView>, scope: Seq<char>, tenant_id: Seq<char>)
    requires
        keys_unique(s),
        has_entry_for(s, scope, tenant_id),
    ensures
        passing(s, is_other(scope, tenant_id)).len() == s.len() - 1,
    decreases s.len(),
{
    let pred = is_other(scope, tenant_id);
    if s.len() > 0 {
        let rest = s.drop_last();
        assert(keys_unique(rest)) by {
            assert forall|i: int, j: int| 0 <= i < j < rest.len() implies !(#[trigger] rest[i]).has_key(
                (#[trigger] rest[j]).scope,
                rest[j].tenant_id,
            ) by {
                assert(rest[i] == s[i]);
                assert(rest[j] == s[j]);
            }
        }
        if s.last().has_key(scope, tenant_id) {
            assert forall|k: int| 0 <= k < rest.len() implies pred(#[trigger] rest[k]) by {
                assert(rest[k] == s[k]);
                assert(s[s.len() - 1] == s.last());
            }
            lemma_filter_keeps_all(rest, pred);
        } else {
            let w = choose|i: int| 0 <= i < s.len() && (#[trigger] s[i]).has_key(scope, tenant_id);
            assert(rest[w] == s[w]);
            lemma_filter_removes_one(rest, scope, tenant_id);
        }
    }
}

proof fn lemma_filter_keeps_all(s: Seq<CachedTokenEntryView>, pred: spec_fn(CachedTokenEntryView) -> bool)
    requires
        forall|k: int| 0 <= k < s.len() ==> pred(#[trigger] s[k]),
    ensures
        passing(s, pred) == s,
    decreases s.len(),
{
    if s.len() > 0 {
        let rest = s.drop_last();
        assert forall|k: int| 0 <= k < rest.len() implies pred(#[trigger] rest[k]) by {
            assert(rest[k] == s[k]);
        }
        lemma_filter_keeps_all(rest, pred);
        assert(rest.push(s.last()) =~= s);
    }
}

proof fn lemma_filter_drops_all(s: Seq<CachedTokenEntryView>, pred: spec_fn(CachedTokenEntryView) -> bool)
    requires
        forall|k: int| 0 <= k < s.len() ==> !pred(#[trigger] s[k]),
    ensures
        passing(s, pred) == Seq::<CachedTokenEntryView>::empty(),
    decreases s.len(),
{
    if s.len() > 0 {
        let rest = s.drop_last();
        assert forall|k: int| 0 <= k < rest.len() implies !pred(#[trigger] rest[k]) by {
            assert(rest[k] == s[k]);
        }
        lemma_filter_drops_all(rest, pred);
    } else {
        assert(s =~= Seq::<CachedTokenEntryView>::empty());
    }
}

/// Inserting keeps the cache free of duplicates: where no two entries
/// shared a key before, none do afterwards, and the new entry is the only
/// one for its key.
pub proof fn law_insert_keeps_keys_unique(entries: Seq<CachedTokenEntryView>, entry: CachedTokenEntryView)
    requires
        keys_unique(entries),
    ensures
        keys_unique(inserted(entries, entry)),
{
    let pred = is_other(entry.scope, entry.tenant_id);
    lemma_filter_unique(entries, pred);
    let f = passing(entries, pred);
    let r = inserted(entries, entry);
    assert forall|i: int, j: int| 0 <= i < j < r.len() implies !(#[trigger] r[i]).has_key(
        (#[trigger] r[j]).scope,
        r[j].tenant_id,
    ) by {
        assert(r[i] == f[i]);
        if j < f.len() {
            assert(r[j] == f[j]);
        } else {
            assert(r[j] == entry);
            assert(pred(f[i]));
        }
    }
}

/// Inserting an entry whose scope and tenant the cache already holds
/// replaces that entry: the number of entries stays the same, and a lookup
/// for the key finds the new entry while it is valid and nothing else.
pub proof fn law_insert_replaces(
    entries: Seq<CachedTokenEntryView>,
    entry: CachedTokenEntryView,
    now: Timestamp,
    buffer_secs: u64,
)
    requires
        keys_unique(entries),
        has_entry_for(entries, entry.scope, entry.tenant_id),
    ensures
        inserted(entries, entry).len() == entries.len(),
        lookup(inserted(entries, entry), entry.scope, entry.tenant_id, now, buffer_secs) == if entry.valid_at(
            now,
            buffer_secs,
        ) {
            Some(entry)
        } else {
            None
        },
{
    lemma_filter_removes_one(entries, entry.scope, entry.tenant_id);
    law_lookup_after_insert(entries, entry, now, buffer_secs);
}

/// After any insert, a lookup for the inserted key finds the new entry while
/// it is valid and nothing else, whatever the cache held before.
pub proof fn law_lookup_after_insert(
    entries: Seq<CachedTokenEntryView>,
    entry: CachedTokenEntryView,
    now: Timestamp,
    buffer_secs: u64,
)
    ensures
        lookup(inserted(entries, entry), entry.scope, entry.tenant_id, now, buffer_secs) == if entry.valid_at(
            now,
            buffer_secs,
        ) {
            Some(entry)
        } else {
            None
        },
{
    let pred = is_other(entry.scope, entry.tenant_id);
    let f = passing(entries, pred);
    let r = inserted(entries, entry);
    assert forall|k: int| 0 <= k < f.len() implies !r[k].answers(
        entry.scope,
        entry.tenant_id,
        now,
        buffer_secs,
    ) by {
        let j = lemma_filter_index(entries, pred, k);
        assert(r[k] == f[k]);
    }
    assert(r[f.len() as int] == entry);
    if entry.valid_at(now, buffer_secs) {
        lemma_lookup(r, entry.scope, entry.tenant_id, now, buffer_secs, f.len() as int);
    } else {
        lemma_lookup(r, entry.scope, entry.tenant_id, now, buffer_secs, r.len() as int);
    }
}

/// A cache loaded from entries that have all expired is empty, so no lookup
/// on it finds anything, at any time and for any key.
pub proof fn law_expired_entries_are_dropped(
    entries: Seq<CachedTokenEntryView>,
    loaded_at: Timestamp,
    scope: Seq<char>,
    tenant_id: Seq<char>,
    asked_at: Timestamp,
)
    requires
        forall|k: int|
            0 <= k < entries.len() ==> !(#[trigger] entries[k]).valid_at(
                loaded_at,
                DEFAULT_BUFFER_SECS,
            ),
    ensures
        live(entries, loaded_at, DEFAULT_BUFFER_SECS).len() == 0,
        lookup(
            live(entries, loaded_at, DEFAULT_BUFFER_SECS),
            scope,
            tenant_id,
            asked_at,
            DEFAULT_BUFFER_SECS,
        ) is None,
{
    lemma_filter_drops_all(entries, is_live(loaded_at, DEFAULT_BUFFER_SECS));
}

/// A lookup never returns an entry whose remaining lifetime is below the
/// buffer, nor one for another scope or tenant.
pub proof fn law_lookup_is_valid(
    entries: Seq<CachedTokenEntryView>,
    scope: Seq<char>,
    tenant_id: Seq<char>,
    now: Timestamp,
    buffer_secs: u64,
)
    ensures
        lookup(entries, scope, tenant_id, now, buffer_secs) matches Some(e) ==> e.valid_at(
            now,
            buffer_secs,
        ) && e.has_key(scope, tenant_id),
    decreases entries.len(),
{
    if entries.len() > 0 && !entries.first().answers(scope, tenant_id, now, buffer_secs) {
        law_lookup_is_valid(entries.drop_first(), scope, tenant_id, now, buffer_secs);
    }
}

} // verus!
