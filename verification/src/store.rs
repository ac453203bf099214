//! Scoped path resolution for the application's file store.
//!
//! A caller names a file by a logical path and an optional scope token. A
//! relative path is resolved against the base directory the token selects —
//! an absolute directory supplied by the host environment — while an absolute
//! path is taken verbatim. The resolution, the scope table, the parent-
//! directory computation a write needs, and the wording of every error are
//! decided and verified here; the surrounding application performs the actual
//! read, write, existence check or directory creation on the resolved path.
//!
//! Paths are modelled textually: a path is absolute exactly when it starts
//! with `/`, joining appends `/` and the relative part, and a parent is the
//! text before the last `/`. The host's platform-specific knowledge enters
//! only through the [`BaseDirectories`] table of already-resolved absolute
//! directories.

use vstd::prelude::*;
use vstd::string::StrSliceExecFns;
use crate::text::str_eq;

verus! {

/// The well-known logical locations a scope token can select.
#[derive(Clone, Copy, Debug, PartialEq, Eq, Structural)]
pub enum BaseDirectory {
    AppConfig,
    AppData,
    AppLocalData,
    AppCache,
    AppLog,
    Config,
    Data,
    Document,
    Download,
    Desktop,
    Home,
    Public,
    Resource,
    Temp,
}

/// The scope table: which base directory each token selects. An absent or
/// unrecognized token deliberately falls back to the application's private
/// data directory rather than failing.
pub open spec fn spec_scope_to_base_directory(scope: Option<Seq<char>>) -> BaseDirectory {
    match scope {
        None => BaseDirectory::AppData,
        Some(s) => if s == "appConfig"@ {
            BaseDirectory::AppConfig
        } else if s == "appData"@ {
            BaseDirectory::AppData
        } else if s == "appLocalData"@ {
            BaseDirectory::AppLocalData
        } else if s == "appCache"@ {
            BaseDirectory::AppCache
        } else if s == "appLog"@ {
            BaseDirectory::AppLog
        } else if s == "config"@ {
            BaseDirectory::Config
        } else if s == "data"@ {
            BaseDirectory::Data
        } else if s == "document"@ {
            BaseDirectory::Document
        } else if s == "download"@ {
            BaseDirectory::Download
        } else if s == "desktop"@ {
            BaseDirectory::Desktop
        } else if s == "home"@ {
            BaseDirectory::Home
        } else if s == "public"@ {
            BaseDirectory::Public
        } else if s == "resource"@ {
            BaseDirectory::Resource
        } else if s == "temp"@ {
            BaseDirectory::Temp
        } else {
            BaseDirectory::AppData
        },
    }
}

/// Maps a scope token to its base directory, per the scope table.
pub fn scope_to_base_directory(scope: &Option<String>) -> (d: BaseDirectory)
    ensures
        d == spec_scope_to_base_directory(spec_scope_view(*scope)),
{
    match scope {
        None => BaseDirectory::AppData,
        Some(s) => {
            let s = s.as_str();
            if str_eq(s, "appConfig") {
                BaseDirectory::AppConfig
            } else if str_eq(s, "appData") {
                BaseDirectory::AppData
            } else if str_eq(s, "appLocalData") {
                BaseDirectory::AppLocalData
            } else if str_eq(s, "appCache") {
                BaseDirectory::AppCache
            } else if str_eq(s, "appLog") {
                BaseDirectory::AppLog
            } else if str_eq(s, "config") {
                BaseDirectory::Config
            } else if str_eq(s, "data") {
                BaseDirectory::Data
            } else if str_eq(s, "document") {
                BaseDirectory::Document
            } else if str_eq(s, "download") {
                BaseDirectory::Download
            } else if str_eq(s, "desktop") {
                BaseDirectory::Desktop
            } else if str_eq(s, "home") {
                BaseDirectory::Home
            } else if str_eq(s, "public") {
                BaseDirectory::Public
            } else if str_eq(s, "resource") {
                BaseDirectory::Resource
            } else if str_eq(s, "temp") {
                BaseDirectory::Temp
            } else {
                BaseDirectory::AppData
            }
        },
    }
}

/// The view of an optional scope token: the token's characters, if present.
pub open spec fn spec_scope_view(scope: Option<String>) -> Option<Seq<char>> {
    match scope {
        None => None,
        Some(s) => Some(s@),
    }
}

/// Whether a path is absolute in the library's textual path model: it starts
/// with the separator.
pub open spec fn spec_is_absolute(path: Seq<char>) -> bool {
    path.len() > 0 && path[0] == '/'
}

/// Tests whether a path is absolute, per the textual path model.
pub fn is_absolute(path: &str) -> (b: bool)
    ensures
        b == spec_is_absolute(path@),
{
    path.unicode_len() > 0 && path.get_char(0) == '/'
}

/// A base directory joined with a relative path: the separator goes between.
pub open spec fn spec_join(base: Seq<char>, rel: Seq<char>) -> Seq<char> {
    base + "/"@ + rel
}

/// The absolute directories the host environment resolved for each base
/// directory; `None` where the host could not supply one (for instance, no
/// accessible home directory).
pub struct BaseDirectories {
    pub app_config: Option<String>,
    pub app_data: Option<String>,
    pub app_local_data: Option<String>,
    pub app_cache: Option<String>,
    pub app_log: Option<String>,
    pub config: Option<String>,
    pub data: Option<String>,
    pub document: Option<String>,
    pub download: Option<String>,
    pub desktop: Option<String>,
    pub home: Option<String>,
    pub public: Option<String>,
    pub resource: Option<String>,
    pub temp: Option<String>,
}

/// The characters of an optional directory entry.
pub open spec fn spec_entry_view(entry: Option<String>) -> Option<Seq<char>> {
    match entry {
        None => None,
        Some(s) => Some(s@),
    }
}

/// Whether an optional directory entry, if present, is absolute.
pub open spec fn spec_entry_ok(entry: Option<String>) -> bool {
    spec_entry_view(entry) matches Some(s) ==> spec_is_absolute(s)
}

impl BaseDirectories {
    /// The directory supplied for `dir`, as characters.
    pub open spec fn spec_lookup(self, dir: BaseDirectory) -> Option<Seq<char>> {
        match dir {
            BaseDirectory::AppConfig => spec_entry_view(self.app_config),
            BaseDirectory::AppData => spec_entry_view(self.app_data),
            BaseDirectory::AppLocalData => spec_entry_view(self.app_local_data),
            BaseDirectory::AppCache => spec_entry_view(self.app_cache),
            BaseDirectory::AppLog => spec_entry_view(self.app_log),
            BaseDirectory::Config => spec_entry_view(self.config),
            BaseDirectory::Data => spec_entry_view(self.data),
            BaseDirectory::Document => spec_entry_view(self.document),
            BaseDirectory::Download => spec_entry_view(self.download),
            BaseDirectory::Desktop => spec_entry_view(self.desktop),
            BaseDirectory::Home => spec_entry_view(self.home),
            BaseDirectory::Public => spec_entry_view(self.public),
            BaseDirectory::Resource => spec_entry_view(self.resource),
            BaseDirectory::Temp => spec_entry_view(self.temp),
        }
    }

    /// Well-formedness: every directory the host supplied is absolute.
    pub open spec fn wf(self) -> bool {
        &&& spec_entry_ok(self.app_config)
        &&& spec_entry_ok(self.app_data)
        &&& spec_entry_ok(self.app_local_data)
        &&& spec_entry_ok(self.app_cache)
        &&& spec_entry_ok(self.app_log)
        &&& spec_entry_ok(self.config)
        &&& spec_entry_ok(self.data)
        &&& spec_entry_ok(self.document)
        &&& spec_entry_ok(self.download)
        &&& spec_entry_ok(self.desktop)
        &&& spec_entry_ok(self.home)
        &&& spec_entry_ok(self.public)
        &&& spec_entry_ok(self.resource)
        &&& spec_entry_ok(self.temp)
    }

    /// A table with no directory resolved at all.
    pub fn empty() -> (t: BaseDirectories)
        ensures
            t.wf(),
            t == (BaseDirectories {
                app_config: None,
                app_data: None,
                app_local_data: None,
                app_cache: None,
                app_log: None,
                config: None,
                data: None,
                document: None,
                download: None,
                desktop: None,
                home: None,
                public: None,
                resource: None,
                temp: None,
            }),
    {
        BaseDirectories {
            app_config: None,
            app_data: None,
            app_local_data: None,
            app_cache: None,
            app_log: None,
            config: None,
            data: None,
            document: None,
            download: None,
            desktop: None,
            home: None,
            public: None,
            resource: None,
            temp: None,
        }
    }

    /// The directory supplied for `dir`.
    pub fn lookup(&self, dir: BaseDirectory) -> (p: &Option<String>)
        ensures
            spec_entry_view(*p) == self.spec_lookup(dir),
    {
        match dir {
            BaseDirectory::AppConfig => &self.app_config,
            BaseDirectory::AppData => &self.app_data,
            BaseDirectory::AppLocalData => &self.app_local_data,
            BaseDirectory::AppCache => &self.app_cache,
            BaseDirectory::AppLog => &self.app_log,
            BaseDirectory::Config => &self.config,
            BaseDirectory::Data => &self.data,
            BaseDirectory::Download => &self.download,
            BaseDirectory::Document => &self.document,
            BaseDirectory::Desktop => &self.desktop,
            BaseDirectory::Home => &self.home,
            BaseDirectory::Public => &self.public,
            BaseDirectory::Resource => &self.resource,
            BaseDirectory::Temp => &self.temp,
        }
    }

    /// Checks well-formedness of a table built by unverified surroundings.
    pub fn check_wf(&self) -> (b: bool)
        ensures
            b == self.wf(),
    {
        entry_absolute(&self.app_config) && entry_absolute(&self.app_data) && entry_absolute(
            &self.app_local_data,
        ) && entry_absolute(&self.app_cache) && entry_absolute(&self.app_log) && entry_absolute(
            &self.config,
        ) && entry_absolute(&self.data) && entry_absolute(&self.document) && entry_absolute(
            &self.download,
        ) && entry_absolute(&self.desktop) && entry_absolute(&self.home) && entry_absolute(
            &self.public,
        ) && entry_absolute(&self.resource) && entry_absolute(&self.temp)
    }
}

/// Tests whether an optional directory entry, if present, is absolute.
fn entry_absolute(entry: &Option<String>) -> (b: bool)
    ensures
        b == spec_entry_ok(*entry),
{
    match entry {
        None => true,
        Some(s) => is_absolute(s.as_str()),
    }
}

/// What resolving `path` under `scope` against `dirs` yields: the path itself
/// when it is already absolute, the scope's base directory joined with it
/// when the host supplied that base, and otherwise the resolution error.
pub open spec fn spec_resolve(
    path: Seq<char>,
    scope: Option<Seq<char>>,
    dirs: BaseDirectories,
) -> Result<Seq<char>, Seq<char>> {
    if spec_is_absolute(path) {
        Ok(path)
    } else {
        match dirs.spec_lookup(spec_scope_to_base_directory(scope)) {
            Some(base) => Ok(spec_join(base, path)),
            None => Err("failed to resolve path: no base directory available"@),
        }
    }
}

/// Resolves a logical path: an absolute path is returned verbatim and the
/// scope is ignored; a relative path is joined onto the base directory its
/// scope selects; the resolution fails exactly when that base directory was
/// not supplied by the host. A returned path is always absolute.
pub fn resolve_store_path(path: &str, scope: &Option<String>, dirs: &BaseDirectories) -> (r:
    Result<String, String>)
    requires
        dirs.wf(),
    ensures
        r is Ok <==> spec_resolve(path@, spec_scope_view(*scope), *dirs) is Ok,
        r matches Ok(p) ==> Ok::<Seq<char>, Seq<char>>(p@) == spec_resolve(
            path@,
            spec_scope_view(*scope),
            *dirs,
        ),
        r matches Err(m) ==> Err::<Seq<char>, Seq<char>>(m@) == spec_resolve(
            path@,
            spec_scope_view(*scope),
            *dirs,
        ),
        r matches Ok(p) ==> spec_is_absolute(p@),
{
    if is_absolute(path) {
        return Ok(path.to_owned());
    }
    let dir = scope_to_base_directory(scope);
    match dirs.lookup(dir) {
        Some(base) => {
            let mut resolved = base.clone();
            resolved.append("/");
            resolved.append(path);
            proof {
                assert(resolved@ =~= spec_join(base@, path@));
                reveal_strlit("/");
                assert(spec_is_absolute(resolved@));
            }
            Ok(resolved)
        },
        None => {
            let m = "failed to resolve path: no base directory available".to_owned();
            Err(m)
        },
    }
}

/// Resolving a relative path under a scope whose base directory the host
/// supplied succeeds, and the result is absolute and begins with that base
/// directory.
pub proof fn lemma_resolve_under_base(path: Seq<char>, scope: Option<Seq<char>>, dirs: BaseDirectories)
    requires
        dirs.wf(),
        !spec_is_absolute(path),
        dirs.spec_lookup(spec_scope_to_base_directory(scope)) is Some,
    ensures
        spec_resolve(path, scope, dirs) is Ok,
        spec_is_absolute(spec_resolve(path, scope, dirs)->Ok_0),
        ({
            let base = dirs.spec_lookup(spec_scope_to_base_directory(scope))->Some_0;
            spec_resolve(path, scope, dirs)->Ok_0.take(base.len() as int) == base
        }),
{
    let base = dirs.spec_lookup(spec_scope_to_base_directory(scope))->Some_0;
    let r = spec_resolve(path, scope, dirs)->Ok_0;
    assert(r.take(base.len() as int) =~= base);
}

/// An absolute path resolves to itself, whatever the scope — present, absent,
/// recognized or not — and whatever the table holds.
pub proof fn lemma_resolve_absolute_identity(
    path: Seq<char>,
    scope: Option<Seq<char>>,
    dirs: BaseDirectories,
)
    requires
        spec_is_absolute(path),
    ensures
        spec_resolve(path, scope, dirs) == Ok::<Seq<char>, Seq<char>>(path),
{
}

/// The position of the last separator in `path`, or `-1` when there is none.
pub open spec fn spec_last_slash(path: Seq<char>) -> int
    decreases path.len(),
{
    if path.len() == 0 {
        -1
    } else if path[path.len() - 1] == '/' {
        path.len() - 1
    } else {
        spec_last_slash(path.drop_last())
    }
}

/// The parent directory of an absolute path in the textual path model: the
/// text before the last separator, the root for a path directly under it,
/// and nothing for the root itself.
pub open spec fn spec_parent(path: Seq<char>) -> Option<Seq<char>> {
    let i = spec_last_slash(path);
    if path.len() <= 1 {
        None
    } else if i == 0 {
        Some("/"@)
    } else {
        Some(path.take(i))
    }
}

/// Characters past the last separator are not separators.
proof fn lemma_last_slash(path: Seq<char>)
    ensures
        spec_last_slash(path) < path.len(),
        spec_last_slash(path) >= -1,
        forall|j: int| spec_last_slash(path) < j < path.len() ==> path[j] != '/',
        spec_is_absolute(path) ==> spec_last_slash(path) >= 0,
    decreases path.len(),
{
    if path.len() > 0 && path[path.len() - 1] != '/' {
        lemma_last_slash(path.drop_last());
        assert forall|j: int| spec_last_slash(path) < j < path.len() implies path[j] != '/' by {
            if j < path.len() - 1 {
                assert(path.drop_last()[j] == path[j]);
            }
        }
        if spec_is_absolute(path) {
            assert(path.drop_last()[0] == '/');
        }
    }
}

/// The parent directory of the absolute path `path`: the text before the last
/// separator, or nothing when `path` is the root.
pub fn parent_of(path: &str) -> (r: Option<String>)
    requires
        spec_is_absolute(path@),
    ensures
        spec_entry_view(r) == spec_parent(path@),
{
    proof {
        lemma_last_slash(path@);
        reveal_strlit("/");
    }
    let len = path.unicode_len();
    let mut i: usize = len;
    while i > 0 && path.get_char(i - 1) != '/'
        invariant
            len == path@.len(),
            i <= len,
            spec_is_absolute(path@),
            forall|j: int| i <= j < len ==> path@[j] != '/',
        decreases i,
    {
        i = i - 1;
    }
    proof {
        assert(i >= 1) by {
            assert(path@[0] == '/');
        }
        assert(path@[i - 1] == '/');
        assert(spec_last_slash(path@) == i - 1) by {
            lemma_last_slash(path@);
            if spec_last_slash(path@) > i - 1 {
                assert(path@[spec_last_slash(path@)] == '/') by {
                    lemma_last_slash_hits(path@);
                }
            }
        }
    }
    if len <= 1 {
        None
    } else if i == 1 {
        Some("/".to_owned())
    } else {
        Some(path.substring_char(0, i - 1).to_owned())
    }
}

/// Where `spec_last_slash` lands, there is a separator (when it lands at
/// all).
proof fn lemma_last_slash_hits(path: Seq<char>)
    ensures
        spec_last_slash(path) >= 0 ==> path[spec_last_slash(path)] == '/',
    decreases path.len(),
{
    if path.len() > 0 && path[path.len() - 1] != '/' {
        lemma_last_slash_hits(path.drop_last());
        lemma_last_slash(path.drop_last());
        if spec_last_slash(path) >= 0 {
            assert(spec_last_slash(path) < path.drop_last().len());
            assert(path.drop_last()[spec_last_slash(path)] == path[spec_last_slash(path)]);
        }
    }
}

/// Everything a store write needs from resolution: the absolute target to
/// write, and the directory that must exist first — the target's parent,
/// when it has one.
pub struct WritePlan {
    pub create_dir: Option<String>,
    pub target: String,
}

/// Plans a store write: resolves `path` under `scope`, and computes the
/// parent directory the surrounding application must create (with all missing
/// ancestors) before writing the target. Fails exactly when resolution fails.
pub fn write_plan(path: &str, scope: &Option<String>, dirs: &BaseDirectories) -> (r: Result<
    WritePlan,
    String,
>)
    requires
        dirs.wf(),
    ensures
        r is Ok <==> spec_resolve(path@, spec_scope_view(*scope), *dirs) is Ok,
        r matches Ok(plan) ==> {
            &&& Ok::<Seq<char>, Seq<char>>(plan.target@) == spec_resolve(
                path@,
                spec_scope_view(*scope),
                *dirs,
            )
            &&& spec_is_absolute(plan.target@)
            &&& spec_entry_view(plan.create_dir) == spec_parent(plan.target@)
        },
        r matches Err(m) ==> Err::<Seq<char>, Seq<char>>(m@) == spec_resolve(
            path@,
            spec_scope_view(*scope),
            *dirs,
        ),
{
    let target = match resolve_store_path(path, scope, dirs) {
        Ok(t) => t,
        Err(m) => {
            return Err(m);
        },
    };
    let create_dir = parent_of(target.as_str());
    Ok(WritePlan { create_dir, target })
}

/// The message of a failed store read of `path`, caused by `cause`.
pub fn read_error_message(path: &str, cause: &str) -> (m: String)
    ensures
        m@ == "failed to read "@ + path@ + ": "@ + cause@,
        m@.len() > 0,
{
    proof {
        reveal_strlit("failed to read ");
    }
    let mut m = String::new();
    m.append("failed to read ");
    m.append(path);
    m.append(": ");
    m.append(cause);
    proof {
        assert(m@ =~= "failed to read "@ + path@ + ": "@ + cause@);
    }
    m
}

/// The message of a failed store write of `path`, caused by `cause`.
pub fn write_error_message(path: &str, cause: &str) -> (m: String)
    ensures
        m@ == "failed to write "@ + path@ + ": "@ + cause@,
        m@.len() > 0,
{
    proof {
        reveal_strlit("failed to write ");
    }
    let mut m = String::new();
    m.append("failed to write ");
    m.append(path);
    m.append(": ");
    m.append(cause);
    proof {
        assert(m@ =~= "failed to write "@ + path@ + ": "@ + cause@);
    }
    m
}

/// The message of a failed directory creation at `path`, caused by `cause`.
pub fn create_dir_error_message(path: &str, cause: &str) -> (m: String)
    ensures
        m@ == "failed to create "@ + path@ + ": "@ + cause@,
        m@.len() > 0,
{
    proof {
        reveal_strlit("failed to create ");
    }
    let mut m = String::new();
    m.append("failed to create ");
    m.append(path);
    m.append(": ");
    m.append(cause);
    proof {
        assert(m@ =~= "failed to create "@ + path@ + ": "@ + cause@);
    }
    m
}

} // verus!
