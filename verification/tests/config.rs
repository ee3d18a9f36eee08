//! Tests of the configuration types, string utilities, and per-bookmark
//! attributes.

use bookmarks_movement::bookmark_attrs::BookmarkAttrs;
use bookmarks_movement::context::LogEntry;
use bookmarks_movement::errors::BookmarkMovementError;
use bookmarks_movement::bookmark_attrs::MembershipChecker;
use bookmarks_movement::bookmark_attrs::SingleBookmarkAttr;
use bookmarks_movement::ids::BookmarkKey;
use bookmarks_movement::metaconfig::BlobConfig;
use bookmarks_movement::metaconfig::BlobstoreId;
use bookmarks_movement::metaconfig::BookmarkOrRegex;
use bookmarks_movement::metaconfig::BookmarkParams;
use bookmarks_movement::metaconfig::CommitSyncConfigVersion;
use bookmarks_movement::metaconfig::DatabaseConfig;
use bookmarks_movement::metaconfig::DerivedDataConfig;
use bookmarks_movement::metaconfig::DerivedDataTypesConfig;
use bookmarks_movement::metaconfig::HookBypass;
use bookmarks_movement::metaconfig::HookType;
use bookmarks_movement::metaconfig::LocalDatabaseConfig;
use bookmarks_movement::metaconfig::MetadataDatabaseConfig;
use bookmarks_movement::metaconfig::MultiplexId;
use bookmarks_movement::metaconfig::MultiplexedStoreType;
use bookmarks_movement::metaconfig::PushrebaseFlags;
use bookmarks_movement::metaconfig::RemoteDatabaseConfig;
use bookmarks_movement::metaconfig::RemoteMetadataDatabaseConfig;
use bookmarks_movement::metaconfig::ServiceWriteRestrictions;
use bookmarks_movement::metaconfig::ShardableRemoteDatabaseConfig;
use bookmarks_movement::metaconfig::SourceControlServiceParams;
use bookmarks_movement::paths::MPath;
use bookmarks_movement::paths::PrefixTrie;
use bookmarks_movement::regexes::ComparableRegex;
use bookmarks_movement::strutil;

fn key(name: &str) -> BookmarkKey {
    BookmarkKey::new(name.to_string())
}

fn path(components: &[&str]) -> MPath {
    MPath::new(components.iter().map(|c| c.to_string()).collect())
}

#[test]
fn derived_data_config_is_enabled_consults_the_active_config() {
    let config = DerivedDataConfig {
        scuba_table: None,
        enabled_config_name: "current".to_string(),
        available_configs: vec![
            (
                "current".to_string(),
                DerivedDataTypesConfig {
                    types: vec!["fsnodes".to_string(), "unodes".to_string()],
                    ..Default::default()
                },
            ),
            (
                "other".to_string(),
                DerivedDataTypesConfig { types: vec!["blame".to_string()], ..Default::default() },
            ),
        ],
    };
    assert!(config.is_enabled("fsnodes"));
    assert!(!config.is_enabled("blame"));
    assert!(config.is_enabled_for_config_name("blame", "other"));
    assert!(!config.is_enabled_for_config_name("fsnodes", "other"));
    assert!(config.get_config("other").is_some());
    assert!(config.get_config("missing").is_none());
    assert_eq!(
        config.get_active_config().map(|c| c.types.clone()),
        Some(vec!["fsnodes".to_string(), "unodes".to_string()])
    );
}

#[test]
fn hook_type_parses_its_two_names() {
    assert_eq!(HookType::from_str("PerChangeset"), Ok(HookType::PerChangeset));
    assert_eq!(
        HookType::from_str("PerAddedOrModifiedFile"),
        Ok(HookType::PerAddedOrModifiedFile)
    );
    assert!(HookType::from_str("PerFile").is_err());
}

#[test]
fn hook_bypass_accessors_return_what_was_configured() {
    let b = HookBypass::new_with_commit_msg_and_pushvar(
        "@allow".to_string(),
        "VAR".to_string(),
        "1".to_string(),
    );
    assert_eq!(b.commit_message_bypass(), Some(&"@allow".to_string()));
    let (name, value) = b.pushvar_bypass().unwrap();
    assert_eq!(name, "VAR");
    assert_eq!(value, "1");
    let only_msg = HookBypass::new_with_commit_msg("@ok".to_string());
    assert!(only_msg.pushvar_bypass().is_none());
    let only_pv = HookBypass::new_with_pushvar("V".to_string(), "2".to_string());
    assert!(only_pv.commit_message_bypass().is_none());
}

fn local_metadata() -> MetadataDatabaseConfig {
    MetadataDatabaseConfig::Local(LocalDatabaseConfig { path: "/tmp/db".to_string() })
}

fn remote_metadata(addr: &str) -> MetadataDatabaseConfig {
    MetadataDatabaseConfig::Remote(RemoteMetadataDatabaseConfig {
        primary: RemoteDatabaseConfig { db_address: addr.to_string() },
        filenodes: ShardableRemoteDatabaseConfig::Unsharded(RemoteDatabaseConfig {
            db_address: addr.to_string(),
        }),
        mutation: RemoteDatabaseConfig { db_address: addr.to_string() },
    })
}

#[test]
fn metadata_database_addresses() {
    assert!(local_metadata().is_local());
    assert_eq!(local_metadata().primary_address(), None);
    let remote = remote_metadata("xdb.maindb");
    assert!(!remote.is_local());
    assert_eq!(remote.primary_address(), Some("xdb.maindb".to_string()));
    let db = DatabaseConfig::Remote(RemoteDatabaseConfig { db_address: "xdb.queue".to_string() });
    assert_eq!(db.remote_address(), Some("xdb.queue".to_string()));
    let local = DatabaseConfig::Local(LocalDatabaseConfig { path: "/tmp".to_string() });
    assert_eq!(local.remote_address(), None);
}

fn multiplexed(components: Vec<BlobConfig>) -> BlobConfig {
    BlobConfig::Multiplexed {
        multiplex_id: MultiplexId::new(1),
        scuba_table: None,
        multiplex_scuba_table: None,
        blobstores: components
            .into_iter()
            .enumerate()
            .map(|(i, c)| (BlobstoreId::new(i as u64), MultiplexedStoreType::Normal, c))
            .collect(),
        minimum_successful_writes: 1,
        not_present_read_quorum: 1,
        scuba_sample_rate: 100,
        queue_db: DatabaseConfig::Local(LocalDatabaseConfig { path: "/tmp".to_string() }),
    }
}

#[test]
fn blob_config_is_local_recurses_through_multiplexes() {
    assert!(BlobConfig::Disabled.is_local());
    assert!(BlobConfig::Files { path: "/blobs".to_string() }.is_local());
    assert!(!BlobConfig::Manifold { bucket: "b".to_string(), prefix: "".to_string() }.is_local());
    let all_local = multiplexed(vec![
        BlobConfig::Files { path: "/a".to_string() },
        BlobConfig::Sqlite { path: "/b".to_string() },
    ]);
    assert!(all_local.is_local());
    let mixed = multiplexed(vec![
        BlobConfig::Files { path: "/a".to_string() },
        BlobConfig::Manifold { bucket: "b".to_string(), prefix: "".to_string() },
    ]);
    assert!(!mixed.is_local());
    let wrapped = BlobConfig::Logging {
        blobconfig: Box::new(BlobConfig::Sqlite { path: "/c".to_string() }),
        scuba_table: None,
        scuba_sample_rate: 1,
    };
    assert!(wrapped.is_local());
}

#[test]
fn sampling_multiplier_scales_the_rate() {
    let mut config = BlobConfig::Logging {
        blobconfig: Box::new(BlobConfig::Disabled),
        scuba_table: None,
        scuba_sample_rate: 10,
    };
    config.apply_sampling_multiplier(5);
    match config {
        BlobConfig::Logging { scuba_sample_rate, .. } => assert_eq!(scuba_sample_rate, 50),
        _ => unreachable!(),
    }
    let mut untouched = BlobConfig::Disabled;
    untouched.apply_sampling_multiplier(5);
    assert!(matches!(untouched, BlobConfig::Disabled));
}

#[test]
fn ids_render_in_decimal() {
    assert_eq!(BlobstoreId::new(0).to_string(), "0");
    assert_eq!(BlobstoreId::new(90210).to_string(), "90210");
    assert_eq!(MultiplexId::new(-7).to_string(), "-7");
    assert_eq!(MultiplexId::new(1234).to_string(), "1234");
}

#[test]
fn pushrebase_flags_defaults() {
    let flags = PushrebaseFlags::default();
    assert!(flags.rewritedates);
    assert_eq!(flags.recursion_limit, Some(16384));
    assert!(flags.forbid_p2_root_rebases);
    assert!(flags.casefolding_check);
    assert_eq!(flags.not_generated_filenodes_limit, 500);
}

#[test]
fn comparable_regex_matches_and_compares_by_pattern() {
    let re = ComparableRegex::new("^scratch/.*".to_string()).unwrap();
    assert!(re.is_match("scratch/x"));
    assert!(!re.is_match("main"));
    assert_eq!(re.as_str(), "^scratch/.*");
    let same = ComparableRegex::new("^scratch/.*".to_string()).unwrap();
    let different = ComparableRegex::new("^scratch/.+".to_string()).unwrap();
    assert!(re == same);
    assert!(re != different);
    assert!(ComparableRegex::new("(unclosed".to_string()).is_none());
}

#[test]
fn bookmark_or_regex_matches() {
    let single = BookmarkOrRegex::Bookmark(key("main"));
    assert!(single.matches(&key("main")));
    assert!(!single.matches(&key("other")));
    let pattern =
        BookmarkOrRegex::Regex(ComparableRegex::new("^releases/.*".to_string()).unwrap());
    assert!(pattern.matches(&key("releases/v1")));
    assert!(!pattern.matches(&key("main")));
}

fn params(bookmark: BookmarkOrRegex) -> BookmarkParams {
    BookmarkParams {
        bookmark,
        hooks: Vec::new(),
        only_fast_forward: false,
        rewrite_dates: None,
        allowed_users: None,
        allowed_hipster_group: None,
        hooks_skip_ancestors_of: Vec::new(),
        ensure_ancestor_of: None,
        allow_move_to_public_commits_without_hooks: false,
    }
}

#[test]
fn bookmark_attrs_select_and_flags() {
    let mut ff = params(BookmarkOrRegex::Bookmark(key("main")));
    ff.only_fast_forward = true;
    ff.rewrite_dates = Some(false);
    let mut wide = params(BookmarkOrRegex::Regex(
        ComparableRegex::new(".*".to_string()).unwrap(),
    ));
    wide.rewrite_dates = Some(true);
    let attrs = BookmarkAttrs::new(vec![
        SingleBookmarkAttr::new(ff, None),
        SingleBookmarkAttr::new(wide, None),
    ]);
    assert_eq!(attrs.select(&key("main")), vec![0, 1]);
    assert_eq!(attrs.select(&key("other")), vec![1]);
    assert!(attrs.is_fast_forward_only(&key("main")));
    assert!(!attrs.is_fast_forward_only(&key("other")));
    // the first matching override wins
    assert_eq!(attrs.should_rewrite_dates(&key("main")), Some(false));
    assert_eq!(attrs.should_rewrite_dates(&key("other")), Some(true));
}

#[test]
fn bookmark_attrs_user_permissions() {
    let mut restricted = params(BookmarkOrRegex::Bookmark(key("release")));
    restricted.allowed_users = Some(ComparableRegex::new("^releaser-.*$".to_string()).unwrap());
    let attrs = BookmarkAttrs::new(vec![SingleBookmarkAttr::new(
        restricted,
        Some(MembershipChecker { members: vec!["USER:release-team".to_string()] }),
    )]);
    let no_identities: Vec<String> = Vec::new();
    // matching user pattern
    assert!(attrs.is_allowed_user("releaser-bob", &no_identities, &key("release")));
    // group membership alone also suffices
    let member = vec!["USER:release-team".to_string()];
    assert!(attrs.is_allowed_user("someone-else", &member, &key("release")));
    // neither pattern nor membership
    assert!(!attrs.is_allowed_user("someone-else", &no_identities, &key("release")));
    // unrelated bookmarks are unrestricted
    assert!(attrs.is_allowed_user("anyone", &no_identities, &key("main")));
}

#[test]
fn prefix_trie_covers_prefixes() {
    let trie = PrefixTrie {
        include_all: false,
        prefixes: vec![path(&["dir1"]), path(&["dir2", "sub"])],
    };
    assert!(trie.contains_prefix(&path(&["dir1", "file"])));
    assert!(trie.contains_prefix(&path(&["dir2", "sub", "deep", "file"])));
    assert!(!trie.contains_prefix(&path(&["dir2", "other"])));
    assert!(!trie.contains_everything());
    let everything = PrefixTrie { include_all: true, prefixes: Vec::new() };
    assert!(everything.contains_prefix(&path(&["anything"])));
    assert!(everything.contains_everything());
}

#[test]
fn service_write_permissions() {
    let mut restrictions = ServiceWriteRestrictions::default();
    restrictions.permitted_methods = vec!["create_bookmark".to_string()];
    restrictions.permitted_bookmarks = vec!["main".to_string()];
    restrictions.permitted_bookmark_regex =
        Some(ComparableRegex::new("^releases/.*".to_string()).unwrap());
    restrictions.permitted_path_prefixes =
        PrefixTrie { include_all: false, prefixes: vec![path(&["allowed"])] };
    let mut params = SourceControlServiceParams::default();
    params.service_write_restrictions = vec![("tailer".to_string(), restrictions)];

    assert!(params.service_write_method_permitted("tailer", "create_bookmark"));
    assert!(!params.service_write_method_permitted("tailer", "delete_bookmark"));
    assert!(!params.service_write_method_permitted("stranger", "create_bookmark"));
    assert!(params.service_write_bookmark_permitted("tailer", &key("main")));
    assert!(params.service_write_bookmark_permitted("tailer", &key("releases/v2")));
    assert!(!params.service_write_bookmark_permitted("tailer", &key("other")));
    assert!(!params.service_write_all_paths_permitted("tailer"));
    let ok_paths = vec![path(&["allowed", "file"])];
    assert!(params.service_write_paths_permitted("tailer", &ok_paths).is_ok());
    let bad_paths = vec![path(&["allowed", "file"]), path(&["forbidden", "file"])];
    let offending = params.service_write_paths_permitted("tailer", &bad_paths).unwrap_err();
    assert_eq!(offending.components, vec!["forbidden".to_string(), "file".to_string()]);
}

#[test]
fn version_name_parses_from_utf8_bytes() {
    let ok = CommitSyncConfigVersion::from_utf8_bytes(b"v2".to_vec()).unwrap();
    assert_eq!(ok.0, "v2");
    let bad = CommitSyncConfigVersion::from_utf8_bytes(vec![0xff, 0xfe]);
    assert_eq!(bad.unwrap_err(), vec![0xff, 0xfe]);
}

#[test]
fn string_utilities() {
    assert_eq!(strutil::u64_to_dec(0), "0");
    assert_eq!(strutil::u64_to_dec(18446744073709551615), "18446744073709551615");
    assert_eq!(strutil::i32_to_dec(-2147483648), "-2147483648");
    assert!(strutil::contains_substring("hello world", "lo wo"));
    assert!(strutil::contains_substring("hello", ""));
    assert!(!strutil::contains_substring("hello", "world"));
    assert!(strutil::str_eq("same", "same"));
    assert!(!strutil::str_eq("same", "other"));
}

#[test]
fn log_entries_render_their_messages() {
    assert_eq!(
        LogEntry::RepoWriteAclWouldFail.render(),
        "Repo write ACL check would fail for bookmark create"
    );
    assert_eq!(LogEntry::CreatingScratchBookmark.render(), "Creating scratch bookmark");
    assert_eq!(LogEntry::CreatingPublicBookmark.render(), "Creating public bookmark");
    assert_eq!(LogEntry::DraftAncestorsScanFailed.render(), "Failed to find draft ancestors");
}

#[test]
fn errors_describe_themselves() {
    let locked = BookmarkMovementError::RepoLocked { reason: "maintenance".to_string() };
    assert_eq!(locked.describe(), "repo is locked: maintenance");
    let scratch = BookmarkMovementError::InvalidScratchBookmark { bookmark: key("main") };
    assert_eq!(scratch.describe(), "invalid scratch bookmark: main");
}
