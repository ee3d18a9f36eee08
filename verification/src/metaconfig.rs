//! Structures describing the configuration of a repository: storage,
//! derived-data, hook, push, and cross-repo-sync settings.

use vstd::prelude::*;

use crate::ids::BookmarkKey;
use crate::regexes::ComparableRegex;
use crate::strutil;

verus! {

/// Whether some string in `list` holds exactly the characters `s`.
pub open spec fn list_contains_str(list: Seq<String>, s: Seq<char>) -> bool {
    exists|i: int| 0 <= i < list.len() && #[trigger] list[i]@ == s
}

/// Whether `v` holds a string equal to `s`.
pub fn vec_contains_str(v: &Vec<String>, s: &str) -> (r: bool)
    ensures
        r == list_contains_str(v@, s@),
{
    let mut i: usize = 0;
    while i < v.len()
        invariant
            0 <= i <= v.len(),
            forall|k: int| 0 <= k < i ==> #[trigger] v@[k]@ != s@,
        decreases v.len() - i,
    {
        if strutil::str_eq(v[i].as_str(), s) {
            return true;
        }
        i += 1;
    }
    false
}

/// Single entry of the global allowlist of principals.
#[derive(Debug, Clone, PartialEq, Eq)]
pub enum AllowlistEntry {
    /// A hardcoded allowed identity, as identity type and identity data.
    HardcodedIdentity {
        /// Identity type.
        ty: String,
        /// Identity data.
        data: String,
    },
    /// Name of a tier whose members are allowed.
    Tier(String),
}

/// Configuration for how blobs are redacted.
#[derive(Debug, Default)]
pub struct RedactionConfig {
    /// Which blobstore should be used to fetch the redacted key lists.
    pub blobstore: BlobConfig,
    /// Blobstore used for backups.
    pub darkstorm_blobstore: Option<BlobConfig>,
    /// Location where the redaction sets object is stored.
    pub redaction_sets_location: String,
}

/// Configuration that applies to all repositories.
#[derive(Debug, Default)]
pub struct CommonConfig {
    /// Who can interact with the service.
    pub security_config: Vec<AllowlistEntry>,
    /// Parent category to use for load limiting.
    pub loadlimiter_category: Option<String>,
    /// Params for logging censored blobstore accesses.
    pub censored_scuba_params: CensoredScubaParams,
    /// Whether to enable the control API over HTTP; for tests only.
    pub enable_http_control_api: bool,
    /// Configuration for redaction of blobs.
    pub redaction_config: RedactionConfig,
}

/// Configuration for logging of censored blobstore accesses.
#[derive(Debug, Clone, Default, PartialEq, Eq)]
pub struct CensoredScubaParams {
    /// Scuba table for logging redacted file accesses.
    pub table: Option<String>,
    /// Local file for logging redacted file accesses.
    pub local_path: Option<String>,
}

/// Configuration for the derived-data subsystem of a repository.
#[derive(Debug, Clone, Default)]
pub struct DerivedDataConfig {
    /// Name of the scuba table where derivation is logged.
    pub scuba_table: Option<String>,
    /// Name of the configuration that is currently enabled.
    pub enabled_config_name: String,
    /// All available configs for derived data types, keyed by name.
    pub available_configs: Vec<(String, DerivedDataTypesConfig)>,
}

/// The first config in `configs` stored under the name `name`, if any.
pub open spec fn lookup_types_config(
    configs: Seq<(String, DerivedDataTypesConfig)>,
    name: Seq<char>,
) -> Option<DerivedDataTypesConfig>
    decreases configs.len(),
{
    if configs.len() == 0 {
        None
    } else if configs[0].0@ == name {
        Some(configs[0].1)
    } else {
        lookup_types_config(configs.drop_first(), name)
    }
}

/// Index of the first config stored under `name`, or `None`.
fn find_types_config(configs: &Vec<(String, DerivedDataTypesConfig)>, name: &str) -> (r: Option<
    usize,
>)
    ensures
        match r {
            Some(i) => i < configs@.len() && configs@[i as int].0@ == name@
                && lookup_types_config(configs@, name@) == Some(configs@[i as int].1),
            None => lookup_types_config(configs@, name@) is None,
        },
{
    proof {
        assert(configs@.skip(0) =~= configs@);
    }
    let mut i: usize = 0;
    while i < configs.len()
        invariant
            0 <= i <= configs.len(),
            lookup_types_config(configs@, name@) == lookup_types_config(
                configs@.skip(i as int),
                name@,
            ),
        decreases configs.len() - i,
    {
        proof {
            assert(configs@.skip(i as int)[0] == configs@[i as int]);
            assert(configs@.skip(i as int).drop_first() =~= configs@.skip(i + 1));
        }
        if strutil::str_eq(configs[i].0.as_str(), name) {
            return Some(i);
        }
        i += 1;
    }
    proof {
        assert(configs@.skip(configs.len() as int).len() == 0);
    }
    None
}

impl DerivedDataConfig {
    /// Whether the named derived data type is enabled in the currently
    /// enabled config.
    pub open spec fn is_enabled_spec(&self, name: Seq<char>) -> bool {
        match lookup_types_config(self.available_configs@, self.enabled_config_name@) {
            Some(config) => config.has_type(name),
            None => false,
        }
    }

    /// Returns whether the named derived data type is enabled.
    pub fn is_enabled(&self, name: &str) -> (r: bool)
        ensures
            r == self.is_enabled_spec(name@),
    {
        match find_types_config(&self.available_configs, self.enabled_config_name.as_str()) {
            Some(i) => vec_contains_str(&self.available_configs[i].1.types, name),
            None => false,
        }
    }

    /// Return whether the named derived data type is enabled in the named
    /// config.
    pub fn is_enabled_for_config_name(&self, name: &str, config_name: &str) -> (r: bool)
        ensures
            r == match lookup_types_config(self.available_configs@, config_name@) {
                Some(config) => config.has_type(name@),
                None => false,
            },
    {
        match find_types_config(&self.available_configs, config_name) {
            Some(i) => vec_contains_str(&self.available_configs[i].1.types, name),
            None => false,
        }
    }

    /// Returns the currently enabled derived data types config.
    pub fn get_active_config(&self) -> (r: Option<&DerivedDataTypesConfig>)
        ensures
            match r {
                Some(config) => lookup_types_config(
                    self.available_configs@,
                    self.enabled_config_name@,
                ) == Some(*config),
                None => lookup_types_config(
                    self.available_configs@,
                    self.enabled_config_name@,
                ) is None,
            },
    {
        match find_types_config(&self.available_configs, self.enabled_config_name.as_str()) {
            Some(i) => Some(&self.available_configs[i].1),
            None => None,
        }
    }

    /// Returns the derived data types config with the given name from the
    /// list of available configs.
    pub fn get_config(&self, name: &str) -> (r: Option<&DerivedDataTypesConfig>)
        ensures
            match r {
                Some(config) => lookup_types_config(self.available_configs@, name@) == Some(
                    *config,
                ),
                None => lookup_types_config(self.available_configs@, name@) is None,
            },
    {
        match find_types_config(&self.available_configs, name) {
            Some(i) => Some(&self.available_configs[i].1),
            None => None,
        }
    }
}

/// Config for the derived data types of one named configuration.
#[derive(Debug, Clone, Default)]
pub struct DerivedDataTypesConfig {
    /// The enabled types.
    pub types: Vec<String>,
    /// Key prefixes for mappings, used to generate distinct mapping keys
    /// when rederiving existing derived data types.
    pub mapping_key_prefixes: Vec<(String, String)>,
    /// What unode version should be used.
    pub unode_version: UnodeVersion,
    /// Override of the file size limit for blame derivation.
    pub blame_filesize_limit: Option<u64>,
    /// Whether to save the committer field in commit extras when generating
    /// mercurial changesets.
    pub hg_set_committer_extra: bool,
    /// What blame version should be used.
    pub blame_version: BlameVersion,
}

impl DerivedDataTypesConfig {
    /// Whether the named type is in the enabled set.
    pub open spec fn has_type(&self, name: Seq<char>) -> bool {
        list_contains_str(self.types@, name)
    }
}

/// What type of unode derived data to generate.
#[derive(Debug, Clone, Copy, PartialEq, Eq, Structural)]
pub enum UnodeVersion {
    /// Unodes v1.
    V1,
    /// Unodes v2.
    V2,
}

impl Default for UnodeVersion {
    /// The default unode version.
    fn default() -> (r: Self)
        ensures
            r == UnodeVersion::V1,
    {
        UnodeVersion::V1
    }
}

/// What type of blame derived data to generate.
#[derive(Debug, Clone, Copy, PartialEq, Eq, Structural)]
pub enum BlameVersion {
    /// Blame v1.
    V1,
    /// Blame v2.
    V2,
}

impl Default for BlameVersion {
    /// The default blame version.
    fn default() -> (r: Self)
        ensures
            r == BlameVersion::V1,
    {
        BlameVersion::V1
    }
}

/// Should the redaction verification be enabled?
#[derive(Debug, Clone, Copy, PartialEq, Eq, Structural)]
pub enum Redaction {
    /// Redacted files cannot be accessed.
    Enabled,
    /// All files can be fetched.
    Disabled,
}

impl Default for Redaction {
    /// Redaction is enabled unless configured otherwise.
    fn default() -> (r: Self)
        ensures
            r == Redaction::Enabled,
    {
        Redaction::Enabled
    }
}

/// Is the repository read-only?
#[derive(Debug, Clone, PartialEq, Eq)]
pub enum RepoReadOnly {
    /// This repository is read-only and should not accept pushes or other
    /// writes; the string gives the reason.
    ReadOnly(String),
    /// This repository accepts writes.
    ReadWrite,
}

impl Default for RepoReadOnly {
    /// A repository accepts writes unless configured otherwise.
    fn default() -> (r: Self)
        ensures
            r == RepoReadOnly::ReadWrite,
    {
        RepoReadOnly::ReadWrite
    }
}

/// Configuration of warming up the cache at startup.
#[derive(Debug, Clone)]
pub struct CacheWarmupParams {
    /// Bookmark to warm up the cache for at startup.
    pub bookmark: BookmarkKey,
    /// Max number of commits to fetch during warmup.
    pub commit_limit: usize,
    /// Whether to use precomputed data to accelerate warmup.
    pub microwave_preload: bool,
}

/// Configuration for the hook manager.
#[derive(Debug, Clone, PartialEq, Eq)]
pub struct HookManagerParams {
    /// Whether to disable the acl checker (intended for testing purposes).
    pub disable_acl_checker: bool,
    /// Whether to log admin bypasses.
    pub all_hooks_bypassed: bool,
    /// Scuba table for logging bypassed commits.
    pub bypassed_commits_scuba_table: Option<String>,
}

impl Default for HookManagerParams {
    /// By default the acl checker is enabled and nothing is bypassed.
    fn default() -> (r: Self)
        ensures
            !r.disable_acl_checker,
            !r.all_hooks_bypassed,
            r.bypassed_commits_scuba_table is None,
    {
        HookManagerParams {
            disable_acl_checker: false,
            all_hooks_bypassed: false,
            bypassed_commits_scuba_table: None,
        }
    }
}

/// Configuration applying to a single bookmark or to all bookmarks matching
/// a regex.
#[derive(Debug, Clone)]
pub enum BookmarkOrRegex {
    /// Matches a single bookmark.
    Bookmark(BookmarkKey),
    /// Matches bookmarks with a regex.
    Regex(ComparableRegex),
}

impl BookmarkOrRegex {
    /// A well-formed value holds a compilable regex, if any.
    pub open spec fn wf(&self) -> bool {
        match self {
            BookmarkOrRegex::Bookmark(_) => true,
            BookmarkOrRegex::Regex(re) => re.wf(),
        }
    }

    /// Whether `bookmark` is selected by this value.
    pub open spec fn matches_spec(&self, bookmark: Seq<char>) -> bool {
        match self {
            BookmarkOrRegex::Bookmark(bm) => bm.name@ == bookmark,
            BookmarkOrRegex::Regex(re) => crate::regexes::regex_matches(
                re.pattern_view(),
                bookmark,
            ),
        }
    }

    /// Checks whether a given bookmark matches this bookmark or regex.
    pub fn matches(&self, bookmark: &BookmarkKey) -> (r: bool)
        requires
            self.wf(),
        ensures
            r == self.matches_spec(bookmark.name@),
    {
        match self {
            BookmarkOrRegex::Bookmark(bm) => strutil::str_eq(
                bm.name.as_str(),
                bookmark.name.as_str(),
            ),
            BookmarkOrRegex::Regex(re) => re.is_match(bookmark.name.as_str()),
        }
    }
}

/// The type of a hook.
#[derive(Debug, Clone, Copy, PartialEq, Eq, Structural)]
pub enum HookType {
    /// A hook that runs on the whole changeset.
    PerChangeset,
    /// A hook that runs on a file in a changeset.
    PerAddedOrModifiedFile,
}

impl HookType {
    /// Parse a hook type from its name.
    pub fn from_str(string: &str) -> (r: Result<HookType, String>)
        ensures
            string@ == "PerChangeset"@ ==> r == Ok::<HookType, String>(HookType::PerChangeset),
            string@ == "PerAddedOrModifiedFile"@ ==> r == Ok::<HookType, String>(
                HookType::PerAddedOrModifiedFile,
            ),
            string@ != "PerChangeset"@ && string@ != "PerAddedOrModifiedFile"@ ==> r is Err,
    {
        proof {
            reveal_strlit("PerChangeset");
            reveal_strlit("PerAddedOrModifiedFile");
            assert("PerChangeset"@.len() != "PerAddedOrModifiedFile"@.len());
        }
        if strutil::str_eq(string, "PerChangeset") {
            Ok(HookType::PerChangeset)
        } else if strutil::str_eq(string, "PerAddedOrModifiedFile") {
            Ok(HookType::PerAddedOrModifiedFile)
        } else {
            let mut message = String::from_str("Unable to parse ");
            message.append(string);
            message.append(" as HookType");
            Err(message)
        }
    }
}

/// A way to skip a hook for selected pushes: a token in the commit message,
/// a named pushvar with an expected value, or both.
#[derive(Debug, Clone)]
pub struct HookBypass {
    /// Bypass that checks that a token occurs in the commit message.
    commit_message_bypass: Option<String>,
    /// Bypass that checks that a pushvar has an expected value.
    pushvar_name_and_value: Option<(String, String)>,
}

impl HookBypass {
    /// The commit-message token, as an abstract value.
    pub closed spec fn commit_message_bypass_spec(&self) -> Option<String> {
        self.commit_message_bypass
    }

    /// The pushvar name and expected value, as an abstract value.
    pub closed spec fn pushvar_bypass_spec(&self) -> Option<(String, String)> {
        self.pushvar_name_and_value
    }

    /// Create a commit-message-only bypass.
    pub fn new_with_commit_msg(msg: String) -> (r: Self)
        ensures
            r.commit_message_bypass_spec() == Some(msg),
            r.pushvar_bypass_spec() is None,
    {
        HookBypass { commit_message_bypass: Some(msg), pushvar_name_and_value: None }
    }

    /// Create a pushvar-only bypass.
    pub fn new_with_pushvar(name: String, value: String) -> (r: Self)
        ensures
            r.commit_message_bypass_spec() is None,
            r.pushvar_bypass_spec() == Some((name, value)),
    {
        HookBypass { commit_message_bypass: None, pushvar_name_and_value: Some((name, value)) }
    }

    /// Create a bypass with both a commit message token and a pushvar.
    pub fn new_with_commit_msg_and_pushvar(
        msg: String,
        pushvar_name: String,
        pushvar_value: String,
    ) -> (r: Self)
        ensures
            r.commit_message_bypass_spec() == Some(msg),
            r.pushvar_bypass_spec() == Some((pushvar_name, pushvar_value)),
    {
        HookBypass {
            commit_message_bypass: Some(msg),
            pushvar_name_and_value: Some((pushvar_name, pushvar_value)),
        }
    }

    /// Get the commit message bypass params.
    pub fn commit_message_bypass(&self) -> (r: Option<&String>)
        ensures
            match r {
                Some(m) => self.commit_message_bypass_spec() == Some(*m),
                None => self.commit_message_bypass_spec() is None,
            },
    {
        self.commit_message_bypass.as_ref()
    }

    /// Get the pushvar bypass params.
    pub fn pushvar_bypass(&self) -> (r: Option<(&String, &String)>)
        ensures
            match r {
                Some(p) => self.pushvar_bypass_spec() == Some((*p.0, *p.1)),
                None => self.pushvar_bypass_spec() is None,
            },
    {
        match &self.pushvar_name_and_value {
            Some(name_and_value) => Some((&name_and_value.0, &name_and_value.1)),
            None => None,
        }
    }
}

/// Configs that are passed to a hook at runtime.
#[derive(Debug, Clone, Default)]
pub struct HookConfig {
    /// An optional way to bypass the hook.
    pub bypass: Option<HookBypass>,
    /// String-valued settings.
    pub strings: Vec<(String, String)>,
    /// Integer-valued settings.
    pub ints: Vec<(String, i32)>,
    /// String-list-valued settings.
    pub string_lists: Vec<(String, Vec<String>)>,
    /// Integer-list-valued settings.
    pub int_lists: Vec<(String, Vec<i32>)>,
}

/// Configuration for a hook.
#[derive(Debug, Clone)]
pub struct HookParams {
    /// The name of the hook.
    pub name: String,
    /// Configs that should be passed to the hook.
    pub config: HookConfig,
}

/// Push configuration options.
#[derive(Debug, Clone, PartialEq, Eq)]
pub struct PushParams {
    /// Whether normal non-pushrebase pushes are allowed.
    pub pure_push_allowed: bool,
    /// Scribe category new commits are logged to.
    pub commit_scribe_category: Option<String>,
}

impl Default for PushParams {
    /// Pure pushes are allowed by default.
    fn default() -> (r: Self)
        ensures
            r.pure_push_allowed,
            r.commit_scribe_category is None,
    {
        PushParams { pure_push_allowed: true, commit_scribe_category: None }
    }
}

/// Flags for the pushrebase inner loop.
#[derive(Debug, Clone, Copy, PartialEq, Eq, Structural)]
pub struct PushrebaseFlags {
    /// Update dates of rebased commits.
    pub rewritedates: bool,
    /// How far from the bookmark to search for the rebase root.
    pub recursion_limit: Option<usize>,
    /// Forbid rebases when the root is not a first parent of the rebase set.
    pub forbid_p2_root_rebases: bool,
    /// Whether to do a casefolding check during pushrebase.
    pub casefolding_check: bool,
    /// How many commits are allowed to not have filenodes generated.
    pub not_generated_filenodes_limit: u64,
}

impl Default for PushrebaseFlags {
    /// The default pushrebase flags.
    fn default() -> (r: Self)
        ensures
            r.rewritedates,
            r.recursion_limit == Some(16384usize),
            r.forbid_p2_root_rebases,
            r.casefolding_check,
            r.not_generated_filenodes_limit == 500,
    {
        PushrebaseFlags {
            rewritedates: true,
            recursion_limit: Some(16384),
            forbid_p2_root_rebases: true,
            casefolding_check: true,
            not_generated_filenodes_limit: 500,
        }
    }
}

/// Pushrebase configuration options.
#[derive(Debug, Clone)]
pub struct PushrebaseParams {
    /// Pushrebase processing flags.
    pub flags: PushrebaseFlags,
    /// Block merge commits.
    pub block_merges: bool,
    /// Whether to emit obsmarkers after pushrebase.
    pub emit_obsmarkers: bool,
    /// Scribe category new commits are logged to.
    pub commit_scribe_category: Option<String>,
    /// The bookmark under which global revision numbers are assigned.
    pub globalrevs_publishing_bookmark: Option<BookmarkKey>,
    /// Whether the git mapping should be populated from extras.
    pub populate_git_mapping: bool,
    /// Whether a push may change the cross-repo mapping used to rewrite a
    /// commit from one repo to another.
    pub allow_change_xrepo_mapping_extra: bool,
}

impl Default for PushrebaseParams {
    /// The default pushrebase configuration.
    fn default() -> (r: Self)
        ensures
            r.flags == PushrebaseFlags::default_spec(),
            !r.block_merges,
            !r.emit_obsmarkers,
            r.commit_scribe_category is None,
            r.globalrevs_publishing_bookmark is None,
            !r.populate_git_mapping,
            !r.allow_change_xrepo_mapping_extra,
    {
        PushrebaseParams {
            flags: PushrebaseFlags::default(),
            block_merges: false,
            emit_obsmarkers: false,
            commit_scribe_category: None,
            globalrevs_publishing_bookmark: None,
            populate_git_mapping: false,
            allow_change_xrepo_mapping_extra: false,
        }
    }
}

impl PushrebaseFlags {
    /// The default pushrebase flags, as an abstract value.
    pub open spec fn default_spec() -> PushrebaseFlags {
        PushrebaseFlags {
            rewritedates: true,
            recursion_limit: Some(16384usize),
            forbid_p2_root_rebases: true,
            casefolding_check: true,
            not_generated_filenodes_limit: 500,
        }
    }
}

/// Large-file-storage configuration options.
#[derive(Debug, Clone, Default, PartialEq, Eq)]
pub struct LfsParams {
    /// Threshold in bytes; when `None`, large-file storage is disabled.
    pub threshold: Option<u64>,
    /// What percentage of clients should receive lfs pointers.
    pub rollout_percentage: u32,
    /// Whether the sync job should generate lfs blobs.
    pub generate_lfs_blob_in_hg_sync_job: bool,
}

/// Id used to discriminate between different underlying blobstore instances.
#[derive(Debug, Clone, Copy, PartialEq, Eq, Structural, Hash, PartialOrd, Ord)]
pub struct BlobstoreId(pub u64);

impl BlobstoreId {
    /// Construct a blobstore id from an integer.
    pub fn new(id: u64) -> (r: Self)
        ensures
            r.0 == id,
    {
        BlobstoreId(id)
    }

    /// The id rendered in decimal.
    pub fn to_string(&self) -> (r: String)
        ensures
            r@ == strutil::dec_digits(self.0 as nat),
    {
        strutil::u64_to_dec(self.0)
    }
}

/// Id used to identify the storage configuration of a multiplexed blobstore.
#[derive(Debug, Clone, Copy, PartialEq, Eq, Structural, Hash, PartialOrd, Ord)]
pub struct MultiplexId(pub i32);

impl MultiplexId {
    /// Construct a multiplex id from an integer.
    pub fn new(id: i32) -> (r: Self)
        ensures
            r.0 == id,
    {
        MultiplexId(id)
    }

    /// The id rendered in decimal.
    pub fn to_string(&self) -> (r: String)
        ensures
            r@ == strutil::dec_digits_signed(self.0 as int),
    {
        strutil::i32_to_dec(self.0)
    }
}

/// Storage needed for a repository: a blobstore and a metadata database.
#[derive(Debug, Default)]
pub struct StorageConfig {
    /// The blobstore to use.
    pub blobstore: BlobConfig,
    /// The metadata database.
    pub metadata: MetadataDatabaseConfig,
    /// Blobstore for ephemeral changesets and snapshots, if any.
    pub ephemeral_blobstore: Option<EphemeralBlobstoreConfig>,
}

/// Whether a blobstore in a multiplex is read normally or only as a last
/// resort.
#[derive(Debug, Clone, Copy, PartialEq, Eq, Structural, Hash)]
pub enum MultiplexedStoreType {
    /// Normal operation, no special treatment.
    Normal,
    /// Only read when normal blobstores do not provide the blob; writes go
    /// here as per normal.
    WriteMostly,
}

/// What format a packed blobstore writes: raw, or compressed.
#[derive(Debug, Clone, Copy, PartialEq, Eq, Structural, Hash)]
pub enum PackFormat {
    /// Uncompressed data is written.
    Raw,
    /// Data is compressed at the given level and written in compressed form
    /// when smaller than raw.
    ZstdIndividual(i32),
}

impl Default for PackFormat {
    /// Packed blobstores write raw data by default.
    fn default() -> (r: Self)
        ensures
            r == PackFormat::Raw,
    {
        PackFormat::Raw
    }
}

/// Configuration for a packing blobstore.
#[derive(Debug, Clone, Copy, PartialEq, Eq, Structural, Hash)]
pub struct PackConfig {
    /// What format puts are written in.
    pub put_format: PackFormat,
}

/// Configuration for a blobstore.
#[derive(Debug)]
pub enum BlobConfig {
    /// Administratively disabled blobstore.
    Disabled,
    /// On-disk files with data, stored in separate files; development and
    /// testing only.
    Files {
        /// Path to the directory containing the files.
        path: String,
    },
    /// On-disk files with data, stored in a local database.
    Sqlite {
        /// Path to the database.
        path: String,
    },
    /// Store in a bucket of the blob-hosting service.
    Manifold {
        /// Bucket of the backing blobstore to connect to.
        bucket: String,
        /// Prefix prepended to all keys.
        prefix: String,
    },
    /// Store in a sharded remote database.
    Mysql {
        /// The remote database config.
        remote: ShardableRemoteDatabaseConfig,
    },
    /// Multiplex across multiple blobstores for redundancy.
    Multiplexed {
        /// A unique id identifying this multiplex configuration.
        multiplex_id: MultiplexId,
        /// A scuba table for stats per blobstore.
        scuba_table: Option<String>,
        /// A scuba table for multiplex stats.
        multiplex_scuba_table: Option<String>,
        /// The blobstores being multiplexed over.
        blobstores: Vec<(BlobstoreId, MultiplexedStoreType, BlobConfig)>,
        /// The number of writes that must succeed for a put to the multiplex
        /// to succeed; always at least one.
        minimum_successful_writes: usize,
        /// The number of reads needed to decide a blob is not present;
        /// always at least one.
        not_present_read_quorum: usize,
        /// One in this many samples is logged to the scuba tables; always at
        /// least one.
        scuba_sample_rate: u64,
        /// Database config to use for the sync queue.
        queue_db: DatabaseConfig,
    },
    /// Store in a bucket of the blob-hosting service, with an expiration on
    /// every object.
    ManifoldWithTtl {
        /// Bucket of the backing blobstore to connect to.
        bucket: String,
        /// Prefix prepended to all keys.
        prefix: String,
        /// Time to live of each object, in seconds.
        ttl_secs: u64,
    },
    /// A logging blobstore that wraps another blobstore.
    Logging {
        /// The config of the wrapped blobstore.
        blobconfig: Box<BlobConfig>,
        /// The scuba table to log requests to.
        scuba_table: Option<String>,
        /// One in this many samples is logged; always at least one.
        scuba_sample_rate: u64,
    },
    /// An optionally-packing blobstore that wraps another blobstore.
    Pack {
        /// The config of the wrapped blobstore.
        blobconfig: Box<BlobConfig>,
        /// Optional configuration such as default compression levels.
        pack_config: Option<PackConfig>,
    },
    /// Store in an S3-compatible service.
    S3 {
        /// Bucket to connect to.
        bucket: String,
        /// Name of the keychain group the access key is retrieved from.
        keychain_group: String,
        /// Name of the region.
        region_name: String,
        /// Endpoint to connect to.
        endpoint: String,
        /// Limit on the number of concurrent operations.
        num_concurrent_operations: Option<usize>,
    },
}

/// Whether a blobstore configuration is strictly local.  A multiplexed
/// blobstore is local exactly when all of its components are.
pub open spec fn blob_config_is_local(c: BlobConfig) -> bool
    decreases c,
{
    match c {
        BlobConfig::Disabled => true,
        BlobConfig::Files { .. } => true,
        BlobConfig::Sqlite { .. } => true,
        BlobConfig::Manifold { .. } => false,
        BlobConfig::Mysql { .. } => false,
        BlobConfig::ManifoldWithTtl { .. } => false,
        BlobConfig::S3 { .. } => false,
        BlobConfig::Multiplexed { blobstores, .. } => forall|i: int|
            0 <= i < blobstores@.len() ==> blob_config_is_local(#[trigger] blobstores@[i].2),
        BlobConfig::Logging { blobconfig, .. } => blob_config_is_local(*blobconfig),
        BlobConfig::Pack { blobconfig, .. } => blob_config_is_local(*blobconfig),
    }
}

impl BlobConfig {
    /// Return true if the blobstore is strictly local.  Multiplexed
    /// blobstores are local iff all their components are.
    #[verifier::loop_isolation(false)]
    pub fn is_local(&self) -> (r: bool)
        ensures
            r == blob_config_is_local(*self),
        decreases *self,
    {
        match self {
            BlobConfig::Disabled => true,
            BlobConfig::Files { .. } => true,
            BlobConfig::Sqlite { .. } => true,
            BlobConfig::Manifold { .. } => false,
            BlobConfig::Mysql { .. } => false,
            BlobConfig::ManifoldWithTtl { .. } => false,
            BlobConfig::S3 { .. } => false,
            BlobConfig::Multiplexed { blobstores, .. } => {
                let mut i: usize = 0;
                let mut all_local = true;
                while i < blobstores.len()
                    invariant
                        0 <= i <= blobstores.len(),
                        all_local == forall|k: int|
                            0 <= k < i ==> blob_config_is_local(#[trigger] blobstores@[k].2),
                    decreases blobstores.len() - i,
                {
                    proof {
                        assert(decreases_to!(*self => self->Multiplexed_blobstores));
                        vstd::std_specs::vec::axiom_vec_index_decreases(*blobstores, i as int);
                        assert(decreases_to!(blobstores@[i as int] => blobstores@[i as int].2));
                    }
                    if !blobstores[i].2.is_local() {
                        all_local = false;
                    }
                    i += 1;
                }
                all_local
            },
            BlobConfig::Logging { blobconfig, .. } => blobconfig.is_local(),
            BlobConfig::Pack { blobconfig, .. } => blobconfig.is_local(),
        }
    }

    /// If this blobstore performs sampling, multiply the sampling rate.
    ///
    /// The caller guarantees the product does not overflow: a sampling
    /// rate has no meaningful value beyond the integer range.
    pub fn apply_sampling_multiplier(&mut self, multiplier: u64)
        requires
            multiplier >= 1,
            match *old(self) {
                BlobConfig::Multiplexed { scuba_sample_rate, .. } => scuba_sample_rate
                    * multiplier <= u64::MAX,
                BlobConfig::Logging { scuba_sample_rate, .. } => scuba_sample_rate * multiplier
                    <= u64::MAX,
                _ => true,
            },
        ensures
            match *old(self) {
                BlobConfig::Multiplexed { scuba_sample_rate, .. } => *final(self)
                    matches BlobConfig::Multiplexed { scuba_sample_rate: new_rate, .. }
                    && new_rate == scuba_sample_rate * multiplier,
                BlobConfig::Logging { scuba_sample_rate, .. } => *final(self)
                    matches BlobConfig::Logging { scuba_sample_rate: new_rate, .. } && new_rate
                    == scuba_sample_rate * multiplier,
                _ => *final(self) == *old(self),
            },
    {
        match self {
            BlobConfig::Multiplexed { scuba_sample_rate, .. } => {
                *scuba_sample_rate = *scuba_sample_rate * multiplier;
            },
            BlobConfig::Logging { scuba_sample_rate, .. } => {
                *scuba_sample_rate = *scuba_sample_rate * multiplier;
            },
            _ => {},
        }
    }
}

impl Default for BlobConfig {
    /// A blobstore is disabled unless configured.
    fn default() -> (r: Self)
        ensures
            r matches BlobConfig::Disabled,
    {
        BlobConfig::Disabled
    }
}

/// Configuration for a local database.
#[derive(Debug, Clone, Default, PartialEq, Eq)]
pub struct LocalDatabaseConfig {
    /// Path to the directory containing the databases.
    pub path: String,
}

/// Configuration for a remote database.
#[derive(Debug, Clone, PartialEq, Eq)]
pub struct RemoteDatabaseConfig {
    /// The database to connect to.
    pub db_address: String,
}

/// Configuration for a sharded remote database.
#[derive(Debug, Clone, PartialEq, Eq)]
pub struct ShardedRemoteDatabaseConfig {
    /// The database shard map to connect to.
    pub shard_map: String,
    /// Number of shards to distribute data across; always at least one.
    pub shard_num: usize,
}

/// Configuration for a potentially sharded remote database.
#[derive(Debug, Clone, PartialEq, Eq)]
pub enum ShardableRemoteDatabaseConfig {
    /// The database is not sharded.
    Unsharded(RemoteDatabaseConfig),
    /// The database is sharded.
    Sharded(ShardedRemoteDatabaseConfig),
}

/// Configuration for a single database.
#[derive(Debug, Clone, PartialEq, Eq)]
pub enum DatabaseConfig {
    /// Local database.
    Local(LocalDatabaseConfig),
    /// Remote database.
    Remote(RemoteDatabaseConfig),
}

impl DatabaseConfig {
    /// The address of this database, if it is remote.
    pub fn remote_address(&self) -> (r: Option<String>)
        ensures
            match *self {
                DatabaseConfig::Remote(ref remote) => r matches Some(a) && a@
                    == remote.db_address@,
                DatabaseConfig::Local(_) => r is None,
            },
    {
        match self {
            DatabaseConfig::Remote(remote) => Some(remote.db_address.clone()),
            DatabaseConfig::Local(_) => None,
        }
    }
}

/// Configuration for the metadata database when it is remote.
#[derive(Debug, Clone, PartialEq, Eq)]
pub struct RemoteMetadataDatabaseConfig {
    /// Database for the primary metadata.
    pub primary: RemoteDatabaseConfig,
    /// Database for possibly sharded filenodes.
    pub filenodes: ShardableRemoteDatabaseConfig,
    /// Database for commit mutation metadata.
    pub mutation: RemoteDatabaseConfig,
}

/// Configuration for the metadata database.
#[derive(Debug, Clone, PartialEq, Eq)]
pub enum MetadataDatabaseConfig {
    /// Local database.
    Local(LocalDatabaseConfig),
    /// Remote databases.
    Remote(RemoteMetadataDatabaseConfig),
}

impl Default for MetadataDatabaseConfig {
    /// The default metadata database is local, with an empty path.
    fn default() -> (r: Self)
        ensures
            r matches MetadataDatabaseConfig::Local(c) && c.path@ == Seq::<char>::empty(),
    {
        MetadataDatabaseConfig::Local(LocalDatabaseConfig { path: String::new() })
    }
}

impl MetadataDatabaseConfig {
    /// Whether this is a local on-disk database.
    pub fn is_local(&self) -> (r: bool)
        ensures
            r == (self matches MetadataDatabaseConfig::Local(_)),
    {
        match self {
            MetadataDatabaseConfig::Local(_) => true,
            MetadataDatabaseConfig::Remote(_) => false,
        }
    }

    /// The address of the primary metadata database, if this is a remote
    /// metadata database.
    pub fn primary_address(&self) -> (r: Option<String>)
        ensures
            match *self {
                MetadataDatabaseConfig::Remote(ref remote) => r matches Some(a) && a@
                    == remote.primary.db_address@,
                MetadataDatabaseConfig::Local(_) => r is None,
            },
    {
        match self {
            MetadataDatabaseConfig::Remote(remote) => Some(remote.primary.db_address.clone()),
            MetadataDatabaseConfig::Local(_) => None,
        }
    }
}

/// Configuration for the ephemeral blobstore, which stores blobs for
/// ephemeral changesets and snapshots.
#[derive(Debug)]
pub struct EphemeralBlobstoreConfig {
    /// The blobstore where ephemeral blobs are stored.
    pub blobstore: BlobConfig,
    /// The database where metadata for the ephemeral blobstore is stored.
    pub metadata: DatabaseConfig,
    /// Initial lifespan of bubbles, in seconds.
    pub initial_bubble_lifespan_secs: u64,
    /// Grace period of already-opened bubbles after expiration, in seconds.
    pub bubble_expiration_grace_secs: u64,
}

/// Params for replay of bundles.
#[derive(Debug, Clone, Copy, Default, PartialEq, Eq, Structural)]
pub struct Bundle2ReplayParams {
    /// Whether to preserve raw bundle contents in the blobstore.
    pub preserve_raw_bundle2: bool,
}

/// Regex for valid branches that scratch pushes can be directed to.
#[derive(Debug, Clone)]
pub struct InfinitepushNamespace(pub ComparableRegex);

impl InfinitepushNamespace {
    /// The pattern of the namespace regex.
    pub open spec fn pattern_view(&self) -> Seq<char> {
        self.0.pattern_view()
    }

    /// A well-formed namespace holds a compilable regex.
    pub open spec fn wf(&self) -> bool {
        self.0.wf()
    }

    /// Whether `bookmark` lies inside this namespace.
    pub open spec fn matches_spec(&self, bookmark: Seq<char>) -> bool {
        crate::regexes::regex_matches(self.pattern_view(), bookmark)
    }

    /// Instantiate a new namespace.
    pub fn new(regex: ComparableRegex) -> (r: Self)
        ensures
            r.pattern_view() == regex.pattern_view(),
            regex.wf() ==> r.wf(),
    {
        InfinitepushNamespace(regex)
    }

    /// Returns whether a given bookmark matches this namespace.
    pub fn matches_bookmark(&self, bookmark: &BookmarkKey) -> (r: bool)
        requires
            self.wf(),
        ensures
            r == self.matches_spec(bookmark.name@),
    {
        self.0.is_match(bookmark.name.as_str())
    }

    /// Returns this namespace's controlling pattern.
    pub fn as_str(&self) -> (r: &str)
        ensures
            r@ == self.pattern_view(),
    {
        self.0.as_str()
    }
}

/// Commit cloud bookmark filler operation mode for the repo.
#[derive(Debug, Clone, Copy, PartialEq, Eq, Structural, PartialOrd, Ord)]
pub enum CommitcloudBookmarksFillerMode {
    /// No filling.
    Disabled,
    /// Backfill old entries.
    Backfill,
    /// Fill the entries forward.
    Forwardfill,
    /// Both fillers active.
    Bidirectional,
}

impl Default for CommitcloudBookmarksFillerMode {
    /// Filling is disabled by default.
    fn default() -> (r: Self)
        ensures
            r == CommitcloudBookmarksFillerMode::Disabled,
    {
        CommitcloudBookmarksFillerMode::Disabled
    }
}

/// Scratch-push ("infinitepush") configuration.  It is legal to not allow
/// scratch pushes while still providing a namespace: regular pushes to the
/// namespace are then prevented, while scratch bookmarks can still be
/// replicated into it.
#[derive(Debug, Clone)]
pub struct InfinitepushParams {
    /// Whether scratch push bundles are allowed on this server.
    pub allow_writes: bool,
    /// Valid namespace for scratch bookmarks.  If `None`, scratch bookmarks
    /// are not allowed.
    pub namespace: Option<InfinitepushNamespace>,
    /// Whether to hydrate responses for scratch commits.
    pub hydrate_getbundle_response: bool,
    /// Whether to write saved bundles into the reverse filler queue.
    pub populate_reverse_filler_queue: bool,
    /// Scribe category new commits are logged to.
    pub commit_scribe_category: Option<String>,
    /// Bookmarks filler operation mode.
    pub bookmarks_filler: CommitcloudBookmarksFillerMode,
    /// Whether to write scratch bookmark updates to the reverse filler
    /// queue.
    pub populate_reverse_bookmarks_filler_queue: bool,
}

impl InfinitepushParams {
    /// A well-formed value holds a compilable namespace regex, if any.
    pub open spec fn wf(&self) -> bool {
        match self.namespace {
            Some(ns) => ns.wf(),
            None => true,
        }
    }
}

impl Default for InfinitepushParams {
    /// Scratch pushes are disallowed by default.
    fn default() -> (r: Self)
        ensures
            !r.allow_writes,
            r.namespace is None,
            !r.hydrate_getbundle_response,
            !r.populate_reverse_filler_queue,
            r.commit_scribe_category is None,
            r.bookmarks_filler == CommitcloudBookmarksFillerMode::Disabled,
            !r.populate_reverse_bookmarks_filler_queue,
    {
        InfinitepushParams {
            allow_writes: false,
            namespace: None,
            hydrate_getbundle_response: false,
            populate_reverse_filler_queue: false,
            commit_scribe_category: None,
            bookmarks_filler: CommitcloudBookmarksFillerMode::Disabled,
            populate_reverse_bookmarks_filler_queue: false,
        }
    }
}

/// Filestore configuration.
#[derive(Debug, Clone, Copy, PartialEq, Eq, Structural)]
pub struct FilestoreParams {
    /// Chunk size for the filestore, in bytes.
    pub chunk_size: u64,
    /// Max number of concurrent chunk uploads to perform.
    pub concurrency: usize,
}

/// Default path action to perform when syncing commits from small to large
/// repos.
#[derive(Debug, Clone)]
pub enum DefaultSmallToLargeCommitSyncPathAction {
    /// Preserve the path as is.
    Preserve,
    /// Prepend the given prefix to the path.
    PrependPrefix(crate::paths::MPath),
}

/// Commit sync configuration for a small repo, from the small repo's point
/// of view: a key in `map` is a path prefix in the small repo, its value the
/// prefix in the large repo.
#[derive(Debug, Clone)]
pub struct SmallRepoCommitSyncConfig {
    /// Default action to take on a path.
    pub default_action: DefaultSmallToLargeCommitSyncPathAction,
    /// A map of prefix replacements when syncing.
    pub map: Vec<(crate::paths::MPath, crate::paths::MPath)>,
}

/// Commit sync direction.
#[derive(Debug, Clone, Copy, PartialEq, Eq, Structural)]
pub enum CommitSyncDirection {
    /// Syncing commits from the large repo to the small ones.
    LargeToSmall,
    /// Syncing commits from the small repos to the large one.
    SmallToLarge,
}

/// Name of a commit-sync-configuration version.
#[derive(Debug, Clone, PartialEq, Eq, Hash, PartialOrd, Ord)]
pub struct CommitSyncConfigVersion(pub String);

impl CommitSyncConfigVersion {
    /// Parse a version name from raw bytes.  Succeeds exactly when the
    /// bytes are valid UTF-8; otherwise the bytes are handed back.
    pub fn from_utf8_bytes(bytes: Vec<u8>) -> (r: Result<CommitSyncConfigVersion, Vec<u8>>)
        ensures
            r is Ok <==> vstd::utf8::valid_utf8(bytes@),
            r matches Ok(v) ==> v.0@ == vstd::utf8::decode_utf8(bytes@),
            r matches Err(b) ==> b@ == bytes@,
    {
        match strutil::string_from_utf8(bytes) {
            Ok(s) => Ok(CommitSyncConfigVersion(s)),
            Err(b) => Err(b),
        }
    }
}

/// Commit sync configuration for a large repo.
#[derive(Debug, Clone)]
pub struct CommitSyncConfig {
    /// Large repository id.
    pub large_repo_id: crate::ids::RepositoryId,
    /// Common pushrebase bookmarks.
    pub common_pushrebase_bookmarks: Vec<BookmarkKey>,
    /// Corresponding small repo configs, keyed by repository id.
    pub small_repos: Vec<(crate::ids::RepositoryId, SmallRepoCommitSyncConfig)>,
    /// Version name of the commit sync config.
    pub version_name: CommitSyncConfigVersion,
}

/// Commit sync config that applies to all mapping versions.
#[derive(Debug, Clone)]
pub struct CommonCommitSyncConfig {
    /// Large repository id.
    pub large_repo_id: crate::ids::RepositoryId,
    /// Common pushrebase bookmarks: the bookmarks the sync pipeline manages.
    pub common_pushrebase_bookmarks: Vec<BookmarkKey>,
    /// Small repos configs, keyed by repository id.
    pub small_repos: Vec<(crate::ids::RepositoryId, SmallRepoPermanentConfig)>,
}

/// Permanent config for a single small repo.
#[derive(Debug, Clone)]
pub struct SmallRepoPermanentConfig {
    /// Prefix of the bookmark.
    pub bookmark_prefix: String,
}

/// Configuration for logging wire-protocol commands and arguments.
#[derive(Debug)]
pub struct WireprotoLoggingConfig {
    /// Scribe category to log to.
    pub scribe_category: Option<String>,
    /// Storage to keep arguments in, with the size in bytes above which
    /// arguments are stored there rather than inline.
    pub storage_config_and_threshold: Option<(StorageConfig, u64)>,
    /// Local path where to log replay data.
    pub local_path: Option<String>,
}

impl Default for WireprotoLoggingConfig {
    /// Nothing is logged by default.
    fn default() -> (r: Self)
        ensures
            r.scribe_category is None,
            r.storage_config_and_threshold is None,
            r.local_path is None,
    {
        WireprotoLoggingConfig {
            scribe_category: None,
            storage_config_and_threshold: None,
            local_path: None,
        }
    }
}

/// Restrictions on writes for a service.
#[derive(Debug, Clone, Default)]
pub struct ServiceWriteRestrictions {
    /// The service is permitted to call these methods.
    pub permitted_methods: Vec<String>,
    /// The service is permitted to modify files with these path prefixes.
    pub permitted_path_prefixes: crate::paths::PrefixTrie,
    /// The service is permitted to modify these bookmarks.
    pub permitted_bookmarks: Vec<String>,
    /// The service is permitted to modify bookmarks matching this regex, in
    /// addition to those in `permitted_bookmarks`.
    pub permitted_bookmark_regex: Option<ComparableRegex>,
}

impl ServiceWriteRestrictions {
    /// A well-formed value holds a compilable bookmark regex, if any.
    pub open spec fn wf(&self) -> bool {
        match self.permitted_bookmark_regex {
            Some(re) => re.wf(),
            None => true,
        }
    }
}

/// The first restriction in `restrictions` stored under `name`, if any.
pub open spec fn lookup_restrictions(
    restrictions: Seq<(String, ServiceWriteRestrictions)>,
    name: Seq<char>,
) -> Option<ServiceWriteRestrictions>
    decreases restrictions.len(),
{
    if restrictions.len() == 0 {
        None
    } else if restrictions[0].0@ == name {
        Some(restrictions[0].1)
    } else {
        lookup_restrictions(restrictions.drop_first(), name)
    }
}

/// Index of the first restriction stored under `name`, or `None`.
fn find_restrictions(restrictions: &Vec<(String, ServiceWriteRestrictions)>, name: &str) -> (r:
    Option<usize>)
    ensures
        match r {
            Some(i) => i < restrictions@.len() && restrictions@[i as int].0@ == name@
                && lookup_restrictions(restrictions@, name@) == Some(restrictions@[i as int].1),
            None => lookup_restrictions(restrictions@, name@) is None,
        },
{
    proof {
        assert(restrictions@.skip(0) =~= restrictions@);
    }
    let mut i: usize = 0;
    while i < restrictions.len()
        invariant
            0 <= i <= restrictions.len(),
            lookup_restrictions(restrictions@, name@) == lookup_restrictions(
                restrictions@.skip(i as int),
                name@,
            ),
        decreases restrictions.len() - i,
    {
        proof {
            assert(restrictions@.skip(i as int)[0] == restrictions@[i as int]);
            assert(restrictions@.skip(i as int).drop_first() =~= restrictions@.skip(i + 1));
        }
        if strutil::str_eq(restrictions[i].0.as_str(), name) {
            return Some(i);
        }
        i += 1;
    }
    proof {
        assert(restrictions@.skip(restrictions.len() as int).len() == 0);
    }
    None
}

/// Source control service options.
#[derive(Debug, Clone)]
pub struct SourceControlServiceParams {
    /// Whether writes are permitted.
    pub permit_writes: bool,
    /// Whether writes by services are permitted.
    pub permit_service_writes: bool,
    /// ACL name for determining permissions to act as a service.  If
    /// service writes are permitted and this is `None`, any client may act
    /// as any service.
    pub service_write_hipster_acl: Option<String>,
    /// Restrictions that apply for each service identity.
    pub service_write_restrictions: Vec<(String, ServiceWriteRestrictions)>,
    /// Whether users can create commits without parents.
    pub permit_commits_without_parents: bool,
}

impl Default for SourceControlServiceParams {
    /// No writes are permitted by default.
    fn default() -> (r: Self)
        ensures
            !r.permit_writes,
            !r.permit_service_writes,
            r.service_write_hipster_acl is None,
            r.service_write_restrictions@.len() == 0,
            !r.permit_commits_without_parents,
    {
        SourceControlServiceParams {
            permit_writes: false,
            permit_service_writes: false,
            service_write_hipster_acl: None,
            service_write_restrictions: Vec::new(),
            permit_commits_without_parents: false,
        }
    }
}

impl SourceControlServiceParams {
    /// A well-formed value holds compilable regexes in all restrictions.
    pub open spec fn wf(&self) -> bool {
        forall|i: int|
            0 <= i < self.service_write_restrictions@.len()
                ==> (#[trigger] self.service_write_restrictions@[i].1).wf()
    }

    /// Returns true if the named service is permitted to call the named
    /// method.
    pub fn service_write_method_permitted(&self, service_identity: &str, method: &str) -> (r:
        bool)
        ensures
            r == match lookup_restrictions(self.service_write_restrictions@, service_identity@) {
                Some(restrictions) => list_contains_str(restrictions.permitted_methods@, method@),
                None => false,
            },
    {
        match find_restrictions(&self.service_write_restrictions, service_identity) {
            Some(i) => vec_contains_str(
                &self.service_write_restrictions[i].1.permitted_methods,
                method,
            ),
            None => false,
        }
    }

    /// Returns true if the named service is permitted to modify the named
    /// bookmark, either because the bookmark is listed or because it
    /// matches the permitted-bookmark regex.
    pub fn service_write_bookmark_permitted(
        &self,
        service_identity: &str,
        bookmark: &BookmarkKey,
    ) -> (r: bool)
        requires
            self.wf(),
        ensures
            r == match lookup_restrictions(self.service_write_restrictions@, service_identity@) {
                Some(restrictions) => list_contains_str(
                    restrictions.permitted_bookmarks@,
                    bookmark.name@,
                ) || match restrictions.permitted_bookmark_regex {
                    Some(re) => crate::regexes::regex_matches(re.pattern_view(), bookmark.name@),
                    None => false,
                },
                None => false,
            },
    {
        match find_restrictions(&self.service_write_restrictions, service_identity) {
            Some(i) => {
                let restrictions = &self.service_write_restrictions[i].1;
                if vec_contains_str(&restrictions.permitted_bookmarks, bookmark.name.as_str()) {
                    return true;
                }
                match &restrictions.permitted_bookmark_regex {
                    Some(re) => re.is_match(bookmark.name.as_str()),
                    None => false,
                }
            },
            None => false,
        }
    }

    /// Returns true if the named service is permitted to modify all paths.
    pub fn service_write_all_paths_permitted(&self, service_identity: &str) -> (r: bool)
        ensures
            r == match lookup_restrictions(self.service_write_restrictions@, service_identity@) {
                Some(restrictions) => restrictions.permitted_path_prefixes.include_all,
                None => false,
            },
    {
        match find_restrictions(&self.service_write_restrictions, service_identity) {
            Some(i) => self.service_write_restrictions[i].1
                .permitted_path_prefixes
                .contains_everything(),
            None => false,
        }
    }

    /// Returns `Ok` if the named service is permitted to modify all of the
    /// given changed paths; otherwise returns the first path that is not
    /// covered by the service's permitted path prefixes.
    #[verifier::loop_isolation(false)]
    pub fn service_write_paths_permitted(
        &self,
        service_identity: &str,
        changed_paths: &Vec<crate::paths::MPath>,
    ) -> (r: Result<(), crate::paths::MPath>)
        ensures
            match lookup_restrictions(self.service_write_restrictions@, service_identity@) {
                Some(restrictions) => match r {
                    Ok(_) => forall|k: int|
                        0 <= k < changed_paths@.len()
                            ==> restrictions.permitted_path_prefixes.covers(
                            (#[trigger] changed_paths@[k]).view_components(),
                        ),
                    Err(p) => exists|k: int|
                        0 <= k < changed_paths@.len()
                            && !restrictions.permitted_path_prefixes.covers(
                            (#[trigger] changed_paths@[k]).view_components(),
                        ) && p.view_components() == changed_paths@[k].view_components(),
                },
                None => r is Ok,
            },
    {
        match find_restrictions(&self.service_write_restrictions, service_identity) {
            Some(i) => {
                let trie = &self.service_write_restrictions[i].1.permitted_path_prefixes;
                let mut k: usize = 0;
                while k < changed_paths.len()
                    invariant
                        0 <= k <= changed_paths@.len(),
                        forall|j: int|
                            0 <= j < k ==> trie.covers(
                                (#[trigger] changed_paths@[j]).view_components(),
                            ),
                        *trie == self.service_write_restrictions@[i as int].1
                            .permitted_path_prefixes,
                        i < self.service_write_restrictions@.len(),
                    decreases changed_paths@.len() - k,
                {
                    if !trie.contains_prefix(&changed_paths[k]) {
                        let offending = changed_paths[k].duplicate();
                        proof {
                            let rst = self.service_write_restrictions@[i as int].1;
                            assert(!rst.permitted_path_prefixes.covers(
                                (changed_paths@[k as int]).view_components(),
                            ) && offending.view_components()
                                == changed_paths@[k as int].view_components());
                        }
                        return Err(offending);
                    }
                    k += 1;
                }
                Ok(())
            },
            None => Ok(()),
        }
    }
}

/// Configuration for health monitoring of the source control service.
#[derive(Debug, Clone)]
pub struct SourceControlServiceMonitoring {
    /// Bookmarks whose age is reported to monitoring counters.
    pub bookmarks_to_report_age: Vec<BookmarkKey>,
}

/// The repository's name in the legacy sql database.
#[derive(Debug, Clone, Default, PartialEq, Eq)]
pub struct HgsqlName(pub String);

impl HgsqlName {
    /// The name as a string slice.
    pub fn as_str(&self) -> (r: &str)
        ensures
            r@ == self.0@,
    {
        self.0.as_str()
    }
}

/// The repository's name for global revisions in the legacy sql database.
#[derive(Debug, Clone, Default, PartialEq, Eq)]
pub struct HgsqlGlobalrevsName(pub String);

impl HgsqlGlobalrevsName {
    /// The name as a string slice.
    pub fn as_str(&self) -> (r: &str)
        ensures
            r@ == self.0@,
    {
        self.0.as_str()
    }
}

/// Configuration for segmented changelog.
#[derive(Debug, Clone)]
pub struct SegmentedChangelogConfig {
    /// Whether segmented changelog is enabled for this repository.
    pub enabled: bool,
    /// The bookmark followed to construct the master group of the commit
    /// dag.
    pub master_bookmark: Option<String>,
    /// How often the tailer checks for updates on the master bookmark, in
    /// seconds.
    pub tailer_update_period_secs: Option<u64>,
    /// Whether to skip loading prebuilt commit dags at startup and start
    /// from an empty dag; for tests only.
    pub skip_dag_load_at_startup: bool,
    /// How often the commit dag is reloaded from saves, in seconds.
    pub reload_dag_save_period_secs: Option<u64>,
    /// How often the in-process dag checks the master bookmark to update
    /// itself, in seconds.
    pub update_to_master_bookmark_period_secs: Option<u64>,
    /// Changesets to include in the segmented changelog during reseeding,
    /// beyond the ancestors of master.
    pub bonsai_changesets_to_include: Vec<crate::ids::ChangesetId>,
}

impl Default for SegmentedChangelogConfig {
    /// Segmented changelog is disabled by default; the periodic jobs have
    /// one-minute and one-hour defaults.
    fn default() -> (r: Self)
        ensures
            !r.enabled,
            r.master_bookmark is None,
            r.tailer_update_period_secs == Some(60u64),
            !r.skip_dag_load_at_startup,
            r.reload_dag_save_period_secs == Some(3600u64),
            r.update_to_master_bookmark_period_secs == Some(60u64),
            r.bonsai_changesets_to_include@.len() == 0,
    {
        SegmentedChangelogConfig {
            enabled: false,
            master_bookmark: None,
            tailer_update_period_secs: Some(60),
            skip_dag_load_at_startup: false,
            reload_dag_save_period_secs: Some(3600),
            update_to_master_bookmark_period_secs: Some(60),
            bonsai_changesets_to_include: Vec::new(),
        }
    }
}

/// Configuration for a bookmark.
#[derive(Debug, Clone)]
pub struct BookmarkParams {
    /// The bookmark or bookmark pattern being configured.
    pub bookmark: BookmarkOrRegex,
    /// The hooks active for the bookmark.
    pub hooks: Vec<String>,
    /// Whether non-fast-forward moves are blocked for this bookmark.
    pub only_fast_forward: bool,
    /// Whether to rewrite dates for pushrebased commits.
    pub rewrite_dates: Option<bool>,
    /// Only users matching this pattern or the configured group may move
    /// this bookmark.
    pub allowed_users: Option<ComparableRegex>,
    /// Only users matching the pattern or this group may move this
    /// bookmark.
    pub allowed_hipster_group: Option<String>,
    /// Skip hooks for changesets that are already ancestors of these
    /// bookmarks.
    pub hooks_skip_ancestors_of: Vec<BookmarkKey>,
    /// Ensure that the configured bookmark remains an ancestor of this
    /// bookmark; creations and moves that break that are rejected.
    pub ensure_ancestor_of: Option<BookmarkKey>,
    /// Whether moving the bookmark to an already-public commit bypasses
    /// hooks; safe because hooks already ran when the commit became public.
    pub allow_move_to_public_commits_without_hooks: bool,
}

impl BookmarkParams {
    /// A well-formed value holds compilable regexes.
    pub open spec fn wf(&self) -> bool {
        self.bookmark.wf() && match self.allowed_users {
            Some(re) => re.wf(),
            None => true,
        }
    }
}

/// Backup repo configuration.
#[derive(Debug, Clone, Default, PartialEq, Eq)]
pub struct BackupRepoConfig {
    /// Name of the repository that is the source of the backup.
    pub source_repo_name: String,
}

/// Configuration for the client-facing repo module.
#[derive(Debug, Clone, Copy, Default, PartialEq, Eq, Structural)]
pub struct RepoClientKnobs {
    /// Return a shorter file history in certain calls.
    pub allow_short_getpack_history: bool,
}

/// Configuration of a single repository.
#[derive(Debug, Default)]
pub struct RepoConfig {
    /// If false, this repo config is completely ignored.
    pub enabled: bool,
    /// Persistent storage for this repo.
    pub storage_config: StorageConfig,
    /// Address of the database used to lock writes to the repo.
    pub write_lock_db_address: Option<String>,
    /// How large a cache to use, in bytes, for generation-number data.
    pub generation_cache_size: usize,
    /// Numerical repo id of the repo.
    pub repoid: crate::ids::RepositoryId,
    /// Scuba table for logging hook executions.
    pub scuba_table_hooks: Option<String>,
    /// Local file to log hook scuba output to.
    pub scuba_local_path_hooks: Option<String>,
    /// Parameters of how to warm up the cache.
    pub cache_warmup: Option<CacheWarmupParams>,
    /// Configuration for bookmarks.
    pub bookmarks: Vec<BookmarkParams>,
    /// Scratch-push configuration.
    pub infinitepush: InfinitepushParams,
    /// Configuration for hooks.
    pub hooks: Vec<HookParams>,
    /// Push configuration options.
    pub push: PushParams,
    /// Pushrebase configuration options.
    pub pushrebase: PushrebaseParams,
    /// Large-file-storage configuration options.
    pub lfs: LfsParams,
    /// Configuration for logging wire-protocol requests with full
    /// arguments.
    pub wireproto_logging: WireprotoLoggingConfig,
    /// What percent of read requests verify that returned content matches
    /// the hash.
    pub hash_validation_percentage: usize,
    /// Whether this repo rejects write attempts.
    pub readonly: RepoReadOnly,
    /// Whether files are checked for redaction.
    pub redaction: Redaction,
    /// Params for the hook manager.
    pub hook_manager_params: Option<HookManagerParams>,
    /// Skiplist blobstore key, used to speed up revsets.
    pub skiplist_index_blobstore_key: Option<String>,
    /// Params for bundle replay.
    pub bundle2_replay_params: Bundle2ReplayParams,
    /// Max number of results when listing key patterns.
    pub list_keys_patterns_max: u64,
    /// Params for file storage.
    pub filestore: Option<FilestoreParams>,
    /// Maximum size of files considered by hooks.
    pub hook_max_file_size: u64,
    /// ACL that controls access to this repo.
    pub hipster_acl: Option<String>,
    /// Configuration for the source control service.
    pub source_control_service: SourceControlServiceParams,
    /// Configuration for source control service monitoring.
    pub source_control_service_monitoring: Option<SourceControlServiceMonitoring>,
    /// Derived data config for this repo.
    pub derived_data_config: DerivedDataConfig,
    /// Name of this repository in the legacy sql database.
    pub hgsql_name: HgsqlName,
    /// Name of this repository for global revisions in the legacy sql
    /// database; can differ from `hgsql_name`.
    pub hgsql_globalrevs_name: HgsqlGlobalrevsName,
    /// Whether to enforce strict large-file-storage ACL checks for this
    /// repo.
    pub enforce_lfs_acl_check: bool,
    /// Whether to use the warm bookmark cache while serving data.
    pub repo_client_use_warm_bookmarks_cache: bool,
    /// Configuration for segmented changelog.
    pub segmented_changelog_config: SegmentedChangelogConfig,
    /// Configuration for the client-facing repo module.
    pub repo_client_knobs: RepoClientKnobs,
    /// Callsign to check commits against the code-review system.
    pub phabricator_callsign: Option<String>,
    /// For a backup repo, information about the backup configuration.
    pub backup_repo_config: Option<BackupRepoConfig>,
}

impl RepoConfig {
    /// Returns the address of the primary metadata database, or `None` if
    /// there is none.
    pub fn primary_metadata_db_address(&self) -> (r: Option<String>)
        ensures
            match self.storage_config.metadata {
                MetadataDatabaseConfig::Remote(ref remote) => r matches Some(a) && a@
                    == remote.primary.db_address@,
                MetadataDatabaseConfig::Local(_) => r is None,
            },
    {
        self.storage_config.metadata.primary_address()
    }
}


} // verus!
