use std::collections::HashMap;
use std::sync::{Arc, Mutex};

use terminal_core::utils::error::{unsupported_operation, VfsError, VfsResult};
use terminal_core::vfs::cache::MetadataCache;
use terminal_core::vfs::capabilities::{
    check_operation, get_capabilities_for_path, OperationCheck, ToolCompatibility, ToolCompatibilityResult,
    VfsCapabilities, VfsOperation,
};
use terminal_core::vfs::health::{reports_from, HealthMonitor, PermissionProbe, PermissionState};
use terminal_core::vfs::mount::{MountPoint, MountSource, MountTable};
use terminal_core::vfs::provider::{join_path, DirEntry, FileMetadata, FsProvider, InternalProvider, IosProvider};
use terminal_core::vfs::service::{Plan, RenamePlan, VfsOutcome, VfsService};

// ---- capabilities ----

#[test]
fn test_internal_storage_has_all_ops() {
    let caps = VfsCapabilities::internal_storage();
    assert!(caps.supports(VfsOperation::Chmod));
    assert!(caps.supports(VfsOperation::Symlink));
    assert!(caps.supports(VfsOperation::Watch));
    assert!(!caps.is_saf);
}

#[test]
fn test_saf_limitations() {
    let caps = VfsCapabilities::saf_external();
    assert!(caps.is_saf);
    assert!(!caps.supports(VfsOperation::Chmod));
    assert!(!caps.supports(VfsOperation::Symlink));
    assert!(!caps.supports(VfsOperation::Watch));
    assert!(caps.supports(VfsOperation::Read));
    assert!(caps.supports(VfsOperation::Write));
}

#[test]
fn test_tool_compatibility() {
    let saf_caps = VfsCapabilities::saf_external();

    let npm_result = ToolCompatibility::check("npm", &saf_caps);
    assert!(matches!(npm_result, ToolCompatibilityResult::NotCompatible { .. }));

    let git_result = ToolCompatibility::check("git", &saf_caps);
    assert!(matches!(git_result, ToolCompatibilityResult::PartiallyCompatible { .. }));

    let internal_caps = VfsCapabilities::internal_storage();
    let npm_internal = ToolCompatibility::check("npm", &internal_caps);
    assert!(matches!(npm_internal, ToolCompatibilityResult::FullyCompatible));
}

#[test]
fn test_limitation_warning() {
    let saf_caps = VfsCapabilities::saf_external();
    let warning = saf_caps.limitation_warning();
    assert!(warning.is_some());
    assert!(warning.unwrap().contains("chmod"));

    let internal_caps = VfsCapabilities::internal_storage();
    assert!(internal_caps.limitation_warning().is_none());
}

#[test]
fn test_check_operation_outcomes() {
    let saf = VfsCapabilities::saf_external();
    match check_operation("/mnt/x", VfsOperation::Chmod, &saf) {
        OperationCheck::NotSupported { operation, reason } => {
            assert_eq!(operation, VfsOperation::Chmod);
            assert!(reason.ends_with("\nPath: /mnt/x"));
        }
        other => panic!("unexpected {other:?}"),
    }
    assert!(matches!(check_operation("/mnt/x", VfsOperation::Rename, &saf), OperationCheck::PartialSupport { .. }));
    assert!(matches!(check_operation("/mnt/x", VfsOperation::Read, &saf), OperationCheck::Supported));
    assert!(get_capabilities_for_path("/storage/emulated/0").is_saf);
    assert!(!get_capabilities_for_path("/data/data/app/files/x").is_saf);
}

// ---- cache ----

#[test]
fn test_cache_basic() {
    let mut cache = MetadataCache::new();

    let meta = FileMetadata::file("test.txt", "/test.txt", 100);
    cache.insert("/test.txt", meta.clone());

    let cached = cache.get("/test.txt");
    assert!(cached.is_some());
    assert_eq!(cached.unwrap().size, 100);
}

#[test]
fn test_cache_miss() {
    let mut cache = MetadataCache::new();
    assert!(cache.get("/nonexistent").is_none());
}

#[test]
fn test_cache_invalidation() {
    let mut cache = MetadataCache::new();

    cache.insert("/a/b.txt", FileMetadata::file("b.txt", "/a/b.txt", 10));
    cache.insert("/a/c.txt", FileMetadata::file("c.txt", "/a/c.txt", 20));
    cache.insert("/d.txt", FileMetadata::file("d.txt", "/d.txt", 30));

    cache.invalidate_prefix("/a");

    assert!(cache.get("/a/b.txt").is_none());
    assert!(cache.get("/a/c.txt").is_none());
    assert!(cache.get("/d.txt").is_some());
}

#[test]
fn test_cache_stats() {
    let mut cache = MetadataCache::new();

    cache.insert("/test", FileMetadata::file("test", "/test", 0));
    cache.get("/test");
    cache.get("/other");

    let stats = cache.stats();
    assert_eq!(stats.hits, 1);
    assert_eq!(stats.misses, 1);
    assert_eq!(stats.insertions, 1);
}

#[test]
fn test_cache_expiry() {
    let mut cache = MetadataCache::with_ttl(std::time::Duration::from_millis(10).as_nanos());

    cache.insert("/test", FileMetadata::file("test", "/test", 0));
    assert!(cache.get("/test").is_some());

    let start = std::time::Instant::now();
    while start.elapsed() < std::time::Duration::from_millis(20) {}
    assert!(cache.get("/test").is_none());
}

#[test]
fn test_cache_explicit_times_capacity_and_eviction() {
    let mut cache = MetadataCache::with_capacity(2);
    cache.insert_at("/a", FileMetadata::file("a", "/a", 1), 10);
    cache.insert_at("/b", FileMetadata::file("b", "/b", 2), 20);
    cache.insert_at("/c", FileMetadata::file("c", "/c", 3), 30);
    assert_eq!(cache.len(), 2);
    assert_eq!(cache.stats().evictions, 1);
    assert!(cache.get_at("/a", 31).is_none());
    assert_eq!(cache.get_at("/b", 31).unwrap().size, 2);

    let mut cache = MetadataCache::with_ttl(100);
    cache.insert_at("/x", FileMetadata::file("x", "/x", 1), 0);
    cache.insert_at("/y", FileMetadata::file("y", "/y", 1), 50);
    assert_eq!(cache.evict_expired_at(120), 1);
    assert!(cache.get_at("/y", 120).is_some());
    assert!(cache.get_at("/y", 150).is_none());
    assert_eq!(cache.stats().evictions, 2);
    cache.invalidate("/nothing");
    cache.reset_stats();
    assert_eq!(cache.stats().hits, 0);
    cache.clear();
    assert!(cache.is_empty());
}

// ---- mounts ----

#[test]
fn test_mount_table() {
    let table = MountTable::new("/data/data/com.terminal/files");

    assert!(table.find_mount("/").is_some());
    assert!(table.supports_operation("/", VfsOperation::Chmod));
}

#[test]
fn test_saf_mount() {
    let mut table = MountTable::new("/data/data/com.terminal/files");

    let saf_mount = MountPoint::saf(
        "/mnt/downloads",
        "content://com.android.providers.downloads.documents/tree/downloads",
        "Downloads",
    );

    table.mount(saf_mount).unwrap();

    let mount = table.find_mount("/mnt/downloads/test.txt");
    assert!(mount.is_some());
    assert!(mount.unwrap().capabilities.is_saf);
    assert!(!table.supports_operation("/mnt/downloads", VfsOperation::Chmod));
}

#[test]
fn test_path_resolution() {
    let mut table = MountTable::new("/data/data/com.terminal/files");

    table.mount(MountPoint::saf("/mnt/sd", "content://...", "SD Card")).unwrap();

    let (_mount, relative) = table.resolve("/mnt/sd/Documents/file.txt").unwrap();
    assert_eq!(relative, "Documents/file.txt");
}

#[test]
fn test_resolve_keeps_text_between_remaining_components() {
    let mut table = MountTable::new("/data");
    table.mount(MountPoint::saf("/mnt/sd", "content://b", "B")).unwrap();
    let (_m, rel) = table.resolve("/mnt/sd/a//b/").unwrap();
    assert_eq!(rel, "a//b");
    let (_m, rel) = table.resolve("/mnt/./sd/./a/./b/.").unwrap();
    assert_eq!(rel, "a/./b");
    let (_m, rel) = table.resolve("/mnt/sd").unwrap();
    assert_eq!(rel, "");
    let (m, rel) = table.resolve("//x/../y").unwrap();
    assert_eq!(m.display_name, "/");
    assert_eq!(rel, "x/../y");
}

#[test]
fn test_cannot_unmount_root() {
    let mut table = MountTable::new("/data");
    let result = table.unmount("/");
    assert!(result.is_err());
}

#[test]
fn test_mount_longest_prefix_and_components() {
    let mut table = MountTable::new("/data");
    table.mount(MountPoint::saf("/mnt", "content://a", "A")).unwrap();
    table.mount(MountPoint::saf("/mnt/sd/", "content://b", "B")).unwrap();
    assert_eq!(table.find_mount("/mnt/sd/x").unwrap().display_name, "B");
    assert_eq!(table.find_mount("/mnt//sd/./x").unwrap().display_name, "B");
    assert_eq!(table.find_mount("/mnt/sdx").unwrap().display_name, "A");
    assert_eq!(table.find_mount("/other").unwrap().display_name, "/");
    assert!(table.find_mount("relative/path").is_none());
    assert!(matches!(table.resolve("relative"), Err(VfsError::NotMounted(ref p)) if p == "relative"));
    assert!(table.get_capabilities("relative").is_saf);
    assert_eq!(table.list_mounts().len(), 3);
    assert!(table.get_mount("/mnt/sd").is_some());
    assert!(table.get_mount("/mnt/sd/x").is_none());
    assert_eq!(table.internal_root(), "/data");

    table.mount(MountPoint::saf("/mnt/sd", "content://c", "C")).unwrap();
    assert_eq!(table.list_mounts().len(), 3);
    assert_eq!(table.find_mount("/mnt/sd/x").unwrap().display_name, "C");
    assert!(matches!(table.mount(MountPoint::internal("/", "/elsewhere")), Err(VfsError::PermissionDenied(_))));
    match &table.find_mount("/x").unwrap().source {
        MountSource::Internal(p) => assert_eq!(p, "/data"),
        other => panic!("unexpected {other:?}"),
    }

    table.unmount("/mnt/sd").unwrap();
    assert_eq!(table.find_mount("/mnt/sd/x").unwrap().display_name, "A");
    assert!(matches!(table.unmount("/mnt/sd"), Err(VfsError::NotMounted(_))));
}

// ---- health ----

struct FakeProbe {
    states: Vec<(String, PermissionState)>,
}

impl PermissionProbe for FakeProbe {
    fn check(&self, mount: &MountPoint) -> PermissionState {
        self.states
            .iter()
            .find(|(p, _)| *p == mount.virtual_path)
            .map(|(_, s)| *s)
            .unwrap_or(PermissionState::Valid)
    }
}

fn table_with_two_mounts() -> MountTable {
    let mut table = MountTable::new("/data/data/com.termi/files");
    table.mount(MountPoint::saf("/mnt/sdcard", "content://fake/sdcard", "SD Card")).unwrap();
    table.mount(MountPoint::saf("/mnt/usb", "content://fake/usb", "USB Drive")).unwrap();
    table
}

#[test]
fn test_always_valid_probe_reports_all_healthy() {
    let table = table_with_two_mounts();
    let monitor = HealthMonitor::always_valid();
    let report = monitor.scan(&table);

    assert_eq!(report.len(), 3);
    assert!(report.iter().all(|h| h.state == PermissionState::Valid));
    assert!(monitor.scan_needs_attention(&table).is_empty());
}

#[test]
fn test_stale_mount_is_flagged_with_refresh_hint() {
    let table = table_with_two_mounts();
    let probe = FakeProbe { states: vec![("/mnt/sdcard".to_string(), PermissionState::Stale)] };
    let monitor = HealthMonitor::new(Box::new(probe));

    let needs_attention = monitor.scan_needs_attention(&table);
    assert_eq!(needs_attention.len(), 1);
    assert_eq!(needs_attention[0].display_name, "SD Card");
    assert!(needs_attention[0].suggested_action.unwrap().contains("refresh"));
}

#[test]
fn test_revoked_mount_suggests_re_picking() {
    let table = table_with_two_mounts();
    let probe = FakeProbe { states: vec![("/mnt/usb".to_string(), PermissionState::Revoked)] };
    let monitor = HealthMonitor::new(Box::new(probe));

    let needs_attention = monitor.scan_needs_attention(&table);
    assert_eq!(needs_attention.len(), 1);
    assert_eq!(needs_attention[0].display_name, "USB Drive");
    assert!(needs_attention[0].suggested_action.unwrap().to_lowercase().contains("choose the folder again"));
}

#[test]
fn test_multiple_stale_mounts_all_reported() {
    let table = table_with_two_mounts();
    let probe = FakeProbe {
        states: vec![
            ("/mnt/sdcard".to_string(), PermissionState::Stale),
            ("/mnt/usb".to_string(), PermissionState::Revoked),
        ],
    };
    let monitor = HealthMonitor::new(Box::new(probe));

    assert_eq!(monitor.scan_needs_attention(&table).len(), 2);
    assert_eq!(monitor.scan(&table).len(), 3);
}

#[test]
fn test_permission_state_actions() {
    assert!(PermissionState::Stale.needs_attention());
    assert!(PermissionState::Revoked.needs_attention());
    assert!(!PermissionState::Valid.needs_attention());
    assert!(!PermissionState::NotApplicable.needs_attention());
    assert_eq!(PermissionState::Valid.suggested_action(), None);
    assert_eq!(
        PermissionState::Revoked.suggested_action(),
        Some("Access to this storage was revoked. Tap to choose the folder again.")
    );
}

// ---- providers ----

struct BareMinimumProvider;

impl FsProvider for BareMinimumProvider {
    fn read_file(&self, _path: &str) -> VfsResult<Vec<u8>> {
        Ok(vec![])
    }
    fn write_file(&self, _path: &str, _contents: &[u8]) -> VfsResult<()> {
        Ok(())
    }
    fn metadata(&self, _path: &str) -> VfsResult<FileMetadata> {
        Ok(FileMetadata::file("x", "x", 0))
    }
    fn list_dir(&self, _path: &str) -> VfsResult<Vec<DirEntry>> {
        Ok(vec![])
    }
    fn create_dir(&self, _path: &str) -> VfsResult<()> {
        Ok(())
    }
    fn delete(&self, _path: &str) -> VfsResult<()> {
        Ok(())
    }
    fn rename(&self, _from: &str, _to: &str) -> VfsResult<()> {
        Ok(())
    }
    fn path_exists(&self, _path: &str) -> bool {
        true
    }
    fn is_dir(&self, _path: &str) -> bool {
        false
    }
    fn chmod(&self, path: &str, _mode: u32) -> VfsResult<()> {
        Err(unsupported_operation(VfsOperation::Chmod, path))
    }
    fn symlink(&self, _target: &str, link: &str) -> VfsResult<()> {
        Err(unsupported_operation(VfsOperation::Symlink, link))
    }
    fn readlink(&self, path: &str) -> VfsResult<String> {
        Err(unsupported_operation(VfsOperation::Symlink, path))
    }
}

#[test]
fn test_default_chmod_symlink_are_unsupported() {
    let provider = BareMinimumProvider;
    assert!(matches!(provider.chmod("/x", 0o644), Err(VfsError::OperationNotSupported { .. })));
    assert!(matches!(provider.symlink("/a", "/b"), Err(VfsError::OperationNotSupported { .. })));
    assert!(matches!(provider.readlink("/b"), Err(VfsError::OperationNotSupported { .. })));
}

#[test]
fn test_virtual_absolute_path_stays_under_provider_root() {
    let provider = InternalProvider::new("/data/files");
    assert_eq!(provider.resolve_path("/abs.txt"), "/data/files/abs.txt");
    assert_eq!(provider.resolve_path("rel/x.txt"), "/data/files/rel/x.txt");
    assert_eq!(provider.resolve_path("/data/files/in.txt"), "/data/files/in.txt");
    assert_eq!(provider.resolve_path("/"), "/data/files/");
    assert_eq!(provider.resolve_path(""), "/data/files/");
    assert_eq!(provider.resolve_path("/x//y/"), "/data/files/x//y");
    assert_eq!(join_path("", "a"), "a");
    assert_eq!(join_path("/b/", "a"), "/b/a");
    assert_eq!(join_path("/b", "/a"), "/a");
}

#[test]
fn test_ios_provider_refuses_everything() {
    let p = IosProvider::new("ios://x".to_string());
    assert!(matches!(p.read_file("a"), Err(VfsError::NotFound(ref m)) if m == "iOS provider not implemented"));
    assert!(matches!(p.write_file("a", b"x"), Err(VfsError::PermissionDenied(_))));
    assert!(!p.path_exists("a"));
    assert!(matches!(p.chmod("a", 0o600), Err(VfsError::OperationNotSupported { .. })));
}

// ---- service ----

#[derive(Default)]
struct MemFs {
    files: Mutex<HashMap<String, Vec<u8>>>,
    unix: bool,
}

impl FsProvider for MemFs {
    fn read_file(&self, path: &str) -> VfsResult<Vec<u8>> {
        self.files.lock().unwrap().get(path).cloned().ok_or_else(|| VfsError::NotFound(path.to_string()))
    }
    fn write_file(&self, path: &str, contents: &[u8]) -> VfsResult<()> {
        self.files.lock().unwrap().insert(path.to_string(), contents.to_vec());
        Ok(())
    }
    fn metadata(&self, path: &str) -> VfsResult<FileMetadata> {
        let files = self.files.lock().unwrap();
        let contents = files.get(path).ok_or_else(|| VfsError::NotFound(path.to_string()))?;
        Ok(FileMetadata::file(path, path, contents.len() as u64))
    }
    fn list_dir(&self, _path: &str) -> VfsResult<Vec<DirEntry>> {
        Ok(vec![])
    }
    fn create_dir(&self, _path: &str) -> VfsResult<()> {
        Ok(())
    }
    fn delete(&self, path: &str) -> VfsResult<()> {
        self.files.lock().unwrap().remove(path);
        Ok(())
    }
    fn rename(&self, from: &str, to: &str) -> VfsResult<()> {
        let mut files = self.files.lock().unwrap();
        let v = files.remove(from).ok_or_else(|| VfsError::NotFound(from.to_string()))?;
        files.insert(to.to_string(), v);
        Ok(())
    }
    fn path_exists(&self, path: &str) -> bool {
        self.files.lock().unwrap().contains_key(path)
    }
    fn is_dir(&self, _path: &str) -> bool {
        false
    }
    fn chmod(&self, path: &str, _mode: u32) -> VfsResult<()> {
        if self.unix && self.path_exists(path) {
            Ok(())
        } else {
            Err(VfsError::NotFound(path.to_string()))
        }
    }
    fn symlink(&self, _target: &str, link: &str) -> VfsResult<()> {
        Err(unsupported_operation(VfsOperation::Symlink, link))
    }
    fn readlink(&self, path: &str) -> VfsResult<String> {
        Err(unsupported_operation(VfsOperation::Symlink, path))
    }
}

fn service_with_saf_mount() -> VfsService {
    let internal: Arc<dyn FsProvider> = Arc::new(MemFs { files: Mutex::new(HashMap::new()), unix: true });
    let mut svc = VfsService::new("/data/files", internal);
    let saf_mount = MountPoint::saf("/mnt/sdcard", "content://fake/tree/sdcard", "SD Card");
    let saf_provider: Arc<dyn FsProvider> = Arc::new(MemFs::default());
    svc.mount_provider(saf_mount, saf_provider).unwrap();
    svc
}

#[test]
fn test_write_read_on_internal_is_ok() {
    let svc = service_with_saf_mount();
    let outcome = svc.write_file("/hello.txt", b"hi");
    assert!(matches!(outcome, VfsOutcome::Done(())));

    match svc.read_file("/hello.txt") {
        VfsOutcome::Done(data) => assert_eq!(data, b"hi"),
        other => panic!("expected Done, got {other:?}"),
    }
}

#[test]
fn test_chmod_blocked_on_saf_mount_with_hint() {
    let svc = service_with_saf_mount();
    svc.write_file("/mnt/sdcard/project/index.js", b"x").into_result().unwrap();

    match svc.chmod("/mnt/sdcard/project/index.js", 0o755) {
        VfsOutcome::Blocked { operation, hint, .. } => {
            assert_eq!(operation, VfsOperation::Chmod);
            assert!(hint.is_some());
            assert!(hint.unwrap().contains("internal storage"));
        }
        other => panic!("expected Blocked, got {other:?}"),
    }
}

#[test]
fn test_chmod_succeeds_on_internal_mount() {
    let svc = service_with_saf_mount();
    svc.write_file("/index.js", b"x").into_result().unwrap();

    match svc.chmod("/index.js", 0o755) {
        VfsOutcome::Done(()) => {}
        other => panic!("expected Done, got {other:?}"),
    }
}

#[test]
fn test_symlink_blocked_on_saf_with_npm_specific_hint() {
    let svc = service_with_saf_mount();

    match svc.symlink("/mnt/sdcard/node_modules/.bin/real", "/mnt/sdcard/project/node_modules/.bin/tool") {
        VfsOutcome::Blocked { operation, hint, .. } => {
            assert_eq!(operation, VfsOperation::Symlink);
            assert!(hint.unwrap().contains("npm"));
        }
        other => panic!("expected Blocked, got {other:?}"),
    }
}

#[test]
fn test_rename_on_saf_is_degraded_not_blocked() {
    let svc = service_with_saf_mount();
    svc.write_file("/mnt/sdcard/a.txt", b"data").into_result().unwrap();

    match svc.rename("/mnt/sdcard/a.txt", "/mnt/sdcard/b.txt") {
        VfsOutcome::Degraded { caveat, .. } => {
            assert!(caveat.to_lowercase().contains("atomic"));
        }
        other => panic!("expected Degraded, got {other:?}"),
    }

    assert!(matches!(svc.read_file("/mnt/sdcard/b.txt"), VfsOutcome::Done(_)));
}

#[test]
fn test_cross_mount_rename_is_blocked_not_silently_wrong() {
    let svc = service_with_saf_mount();
    svc.write_file("/a.txt", b"data").into_result().unwrap();

    match svc.rename("/a.txt", "/mnt/sdcard/a.txt") {
        VfsOutcome::Blocked { reason, hint, .. } => {
            assert!(reason.contains("Cross-mount"));
            assert!(hint.is_some());
        }
        other => panic!("expected Blocked, got {other:?}"),
    }
    assert!(matches!(svc.read_file("/a.txt"), VfsOutcome::Done(d) if d == b"data"));
}

#[test]
fn test_unmounted_path_is_blocked_after_explicit_unmount() {
    let mut svc = service_with_saf_mount();
    svc.write_file("/mnt/sdcard/a.txt", b"data").into_result().unwrap();

    svc.unmount("/mnt/sdcard").unwrap();

    match svc.read_file("/mnt/sdcard/a.txt") {
        VfsOutcome::Blocked { .. } => {}
        other => panic!("expected Blocked, got {other:?}"),
    }
}

#[test]
fn test_service_outcome_helpers_and_not_mounted() {
    let svc = service_with_saf_mount();
    let o = svc.read_file("relative.txt");
    assert!(o.is_blocked());
    match o {
        VfsOutcome::Blocked { reason, hint, operation } => {
            assert_eq!(reason, "Path not mounted: relative.txt");
            assert!(hint.is_none());
            assert_eq!(operation, VfsOperation::Read);
        }
        _ => unreachable!(),
    }
    svc.write_file("/mnt/sdcard/r.txt", b"1").into_result().unwrap();
    let d = svc.rename("/mnt/sdcard/r.txt", "/mnt/sdcard/s.txt");
    assert!(d.is_degraded());
    assert!(d.into_result().is_ok());
    let blocked = svc.chmod("/mnt/sdcard/s.txt", 0o600);
    assert!(matches!(blocked.into_result(), Err(VfsError::OperationNotSupported { operation: VfsOperation::Chmod, .. })));
    assert_eq!(svc.mounts().list_mounts().len(), 2);
    match svc.metadata("/mnt/sdcard/s.txt") {
        VfsOutcome::Done(m) => assert_eq!(m.size, 1),
        other => panic!("expected Done, got {other:?}"),
    }
    assert!(matches!(svc.read_file("/missing"), VfsOutcome::Blocked { hint: None, .. }));
}

#[test]
fn test_fat_and_unsupported_operations() {
    let fat = VfsCapabilities::fat_external();
    assert!(fat.is_saf);
    assert_eq!(fat.max_path_len, 260);
    assert_eq!(fat.fs_type.display_name(), "External Storage (FAT)");
    let missing = VfsCapabilities::saf_external().unsupported_operations();
    assert_eq!(
        missing,
        vec![
            VfsOperation::Chmod,
            VfsOperation::Chown,
            VfsOperation::Symlink,
            VfsOperation::Hardlink,
            VfsOperation::SetTimestamp,
            VfsOperation::Watch,
            VfsOperation::AtomicRename,
            VfsOperation::Mmap,
            VfsOperation::Lock,
            VfsOperation::Xattr,
        ]
    );
    assert!(VfsCapabilities::internal_storage().unsupported_operations().is_empty());
}

#[test]
fn test_cache_evict_expired_with_clock() {
    let mut cache = MetadataCache::with_ttl(0);
    cache.insert("/a", FileMetadata::file("a", "/a", 1));
    cache.insert("/b", FileMetadata::file("b", "/b", 2));
    assert_eq!(cache.evict_expired(), 2);
    assert!(cache.is_empty());
    assert_eq!(cache.stats().evictions, 2);

    let mut cache = MetadataCache::new();
    cache.insert("/a", FileMetadata::directory("a", "/a"));
    assert_eq!(cache.evict_expired(), 0);
    assert_eq!(cache.len(), 1);
    assert!(cache.get("/a").unwrap().is_dir);
}

#[test]
fn test_tool_names_are_case_insensitive() {
    let saf = VfsCapabilities::saf_external();
    assert!(matches!(ToolCompatibility::check("NPM", &saf), ToolCompatibilityResult::NotCompatible { .. }));
    match ToolCompatibility::check("Git", &saf) {
        ToolCompatibilityResult::PartiallyCompatible { tool, .. } => assert_eq!(tool, "Git"),
        other => panic!("unexpected {other:?}"),
    }
    assert!(matches!(ToolCompatibility::check("unknown-tool", &saf), ToolCompatibilityResult::Unknown));
}

#[derive(Default)]
struct CountingFs {
    calls: Mutex<Vec<String>>,
}

impl FsProvider for CountingFs {
    fn read_file(&self, path: &str) -> VfsResult<Vec<u8>> {
        self.calls.lock().unwrap().push(format!("read {path}"));
        Ok(vec![])
    }
    fn write_file(&self, path: &str, _contents: &[u8]) -> VfsResult<()> {
        self.calls.lock().unwrap().push(format!("write {path}"));
        Ok(())
    }
    fn metadata(&self, path: &str) -> VfsResult<FileMetadata> {
        Err(VfsError::NotFound(path.to_string()))
    }
    fn list_dir(&self, _path: &str) -> VfsResult<Vec<DirEntry>> {
        Ok(vec![])
    }
    fn create_dir(&self, _path: &str) -> VfsResult<()> {
        Ok(())
    }
    fn delete(&self, _path: &str) -> VfsResult<()> {
        Ok(())
    }
    fn rename(&self, from: &str, to: &str) -> VfsResult<()> {
        self.calls.lock().unwrap().push(format!("rename {from} {to}"));
        Ok(())
    }
    fn path_exists(&self, _path: &str) -> bool {
        false
    }
    fn is_dir(&self, _path: &str) -> bool {
        false
    }
    fn chmod(&self, path: &str, _mode: u32) -> VfsResult<()> {
        self.calls.lock().unwrap().push(format!("chmod {path}"));
        Ok(())
    }
    fn symlink(&self, target: &str, link: &str) -> VfsResult<()> {
        self.calls.lock().unwrap().push(format!("symlink {target} {link}"));
        Ok(())
    }
    fn readlink(&self, path: &str) -> VfsResult<String> {
        Err(unsupported_operation(VfsOperation::Symlink, path))
    }
}

#[test]
fn test_refused_requests_never_reach_the_provider() {
    let internal = Arc::new(CountingFs::default());
    let saf = Arc::new(CountingFs::default());
    let internal_dyn: Arc<dyn FsProvider> = internal.clone();
    let saf_dyn: Arc<dyn FsProvider> = saf.clone();
    let mut svc = VfsService::new("/data/files", internal_dyn);
    svc.mount_provider(MountPoint::saf("/mnt/sdcard", "content://fake/tree/sdcard", "SD Card"), saf_dyn).unwrap();

    assert!(svc.chmod("/mnt/sdcard/x", 0o755).is_blocked());
    assert!(svc.symlink("/mnt/sdcard/a", "/mnt/sdcard/b").is_blocked());
    assert!(svc.rename("/a.txt", "/mnt/sdcard/a.txt").is_blocked());
    assert!(saf.calls.lock().unwrap().is_empty());
    assert!(internal.calls.lock().unwrap().is_empty());

    assert!(svc.rename("/mnt/sdcard/d/a", "/mnt/sdcard/d/b").is_degraded());
    assert_eq!(*saf.calls.lock().unwrap(), vec!["rename d/a d/b".to_string()]);
    assert!(matches!(svc.chmod("/bin/x", 0o755), VfsOutcome::Done(())));
    assert_eq!(*internal.calls.lock().unwrap(), vec!["chmod bin/x".to_string()]);
}

#[test]
fn test_plans_name_provider_and_relative_paths() {
    let svc = service_with_saf_mount();
    match svc.plan("/mnt/sdcard/p/q.txt", VfsOperation::Read) {
        Plan::Run { relative, caveat, .. } => {
            assert_eq!(relative, "p/q.txt");
            assert!(caveat.is_none());
        }
        Plan::Refuse { .. } => panic!("read on SAF runs"),
    }
    match svc.plan("/mnt/sdcard/p", VfsOperation::Chmod) {
        Plan::Refuse { operation, hint, .. } => {
            assert_eq!(operation, VfsOperation::Chmod);
            assert!(hint.unwrap().contains("internal storage"));
        }
        Plan::Run { .. } => panic!("chmod on SAF is refused"),
    }
    match svc.rename_plan("/mnt/sdcard/a", "/mnt/sdcard/sub/b") {
        RenamePlan::Run { from, to, caveat, .. } => {
            assert_eq!(from, "a");
            assert_eq!(to, "sub/b");
            assert!(caveat.is_some());
        }
        RenamePlan::Refuse { .. } => panic!("rename within SAF runs"),
    }
    match svc.rename_plan("/a", "/mnt/sdcard/b") {
        RenamePlan::Refuse { reason, hint } => {
            assert!(reason.contains("Cross-mount"));
            assert_eq!(hint.unwrap(), "Copy the file to the destination and delete the original instead.");
        }
        RenamePlan::Run { .. } => panic!("cross-mount rename is refused"),
    }
}

#[test]
fn test_reports_from_pairs_each_mount_with_its_state() {
    let a = MountPoint::saf("/mnt/sdcard", "content://fake/sdcard", "SD Card");
    let b = MountPoint::saf("/mnt/usb", "content://fake/usb", "USB Drive");
    let answers = vec![(&a, PermissionState::Stale), (&b, PermissionState::Revoked)];
    let r = reports_from(&answers);
    assert_eq!(r.len(), 2);
    assert_eq!(r[0].virtual_path, "/mnt/sdcard");
    assert_eq!(r[0].display_name, "SD Card");
    assert_eq!(r[0].state, PermissionState::Stale);
    assert!(r[0].suggested_action.unwrap().contains("refresh"));
    assert_eq!(r[1].display_name, "USB Drive");
    assert_eq!(r[1].state, PermissionState::Revoked);
}
