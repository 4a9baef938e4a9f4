//! The capability-aware VFS service.
//!
//! Every operation goes through the capability check first and reaches a provider
//! only when the mount's capabilities allow it. The answer is a [`VfsOutcome`]: done,
//! done with a caveat the user should see (rename on SAF is not atomic), or blocked
//! with a reason and, for the operations that commonly fail on SAF, a hint the
//! terminal can show inline.

use vstd::prelude::*;

use std::sync::Arc;

use crate::text::owned;
use crate::utils::error::{vfs_error_text, VfsError, VfsResult};
use crate::vfs::capabilities::{check_operation, rename_caveat, unsupported_reason, OperationCheck, VfsOperation};
use crate::vfs::keyed::{distinct_keys, find_key, keyed_map, lemma_keyed_map, put, remove_at, Keyed};
use crate::vfs::mount::{
    best_key, has_cover, is_best_mount, is_internal_mount, lemma_best_key, root_unmount_text, MountPoint,
    MountTable,
};
use crate::vfs::path::{comps_equal, components, path_components, rest_after, root_components};
use crate::vfs::provider::{DirEntry, FileMetadata, FsProvider};

verus! {

/// The result of a VFS operation through the capability layer.
#[derive(Debug)]
pub enum VfsOutcome<T> {
    /// The operation succeeded with no caveats.
    Done(T),
    /// The operation was not done: the capability check failed, the path is not
    /// mounted, or the provider reported an error. `hint` is a suggested next step
    /// suitable for showing directly in the terminal.
    Blocked { operation: VfsOperation, reason: String, hint: Option<String> },
    /// The operation succeeded, with a caveat the user should know about.
    Degraded { value: T, caveat: String },
}

impl<T> VfsOutcome<T> {
    /// The outcome as a plain `Result`, dropping hint and caveat: a blocked operation
    /// becomes `OperationNotSupported` with the same operation and reason.
    pub fn into_result(self) -> (r: VfsResult<T>)
        ensures
            match self {
                VfsOutcome::Done(v) => r == Ok::<T, VfsError>(v),
                VfsOutcome::Degraded { value, .. } => r == Ok::<T, VfsError>(value),
                VfsOutcome::Blocked { operation, reason, .. } => r matches Err(
                    VfsError::OperationNotSupported { operation: o, reason: m },
                ) && o == operation && m == reason,
            },
    {
        match self {
            VfsOutcome::Done(v) => Ok(v),
            VfsOutcome::Degraded { value, .. } => Ok(value),
            VfsOutcome::Blocked { operation, reason, .. } => Err(VfsError::OperationNotSupported { operation, reason }),
        }
    }

    /// Whether the operation was blocked.
    pub fn is_blocked(&self) -> (r: bool)
        ensures
            r == self is Blocked,
    {
        match self {
            VfsOutcome::Blocked { .. } => true,
            _ => false,
        }
    }

    /// Whether the operation succeeded with a caveat.
    pub fn is_degraded(&self) -> (r: bool)
        ensures
            r == self is Degraded,
    {
        match self {
            VfsOutcome::Degraded { .. } => true,
            _ => false,
        }
    }
}

pub open spec fn opt_text(h: Option<String>) -> Option<Seq<char>> {
    match h {
        Some(s) => Some(s@),
        None => None,
    }
}

/// The suggested next step for operations that commonly block on SAF.
pub open spec fn hint_text(op: VfsOperation) -> Option<Seq<char>> {
    match op {
        VfsOperation::Chmod | VfsOperation::Chown => Some(
            "Permissions can't be changed on external storage. Move this file to internal storage if the tool you're using requires chmod to work."@,
        ),
        VfsOperation::Symlink | VfsOperation::Hardlink => Some(
            "Symbolic links aren't supported on external storage — this will break npm, yarn, and Python venv. Run this project from internal storage instead."@,
        ),
        VfsOperation::Watch => Some(
            "File watching isn't supported here, so live-reload tools won't fire. Move the project to internal storage if you need file watching."@,
        ),
        VfsOperation::Mmap | VfsOperation::Lock => Some(
            "This operation needs direct file-descriptor access, which external storage doesn't provide. Internal storage supports it."@,
        ),
        _ => None,
    }
}

/// The reason given for a rename between two mounts.
pub open spec fn cross_mount_reason() -> Seq<char> {
    "Cross-mount rename is not supported yet (from and to are on different filesystems)."@
}

/// The hint given for a rename between two mounts.
pub open spec fn cross_mount_hint() -> Seq<char> {
    "Copy the file to the destination and delete the original instead."@
}

/// `o` is `Blocked` with exactly this operation, reason and hint.
pub open spec fn blocked_as<T>(o: VfsOutcome<T>, op: VfsOperation, reason: Seq<char>, hint: Option<Seq<char>>) -> bool {
    o matches VfsOutcome::Blocked { operation, reason: r, hint: h } && operation == op && r@ == reason
        && opt_text(h) == hint
}

/// `o` is what the provider's result `r` gives for `op`: its value (with the caveat,
/// when the capability check gave one), or `Blocked` for `op` with the provider's
/// error text and no hint.
pub open spec fn from_provider<T>(r: VfsResult<T>, op: VfsOperation, caveat: Option<Seq<char>>, o: VfsOutcome<T>) -> bool {
    match r {
        Ok(v) => match caveat {
            None => o == VfsOutcome::<T>::Done(v),
            Some(c) => o matches VfsOutcome::Degraded { value, caveat: c2 } && value == v && c2@ == c,
        },
        Err(e) => o matches VfsOutcome::Blocked { operation, reason, hint } && operation == op && reason@
            == vfs_error_text(e) && hint is None,
    }
}

/// `o` is what some result of the provider gives for `op` (the provider is a trait
/// object over live storage, so its result is not known here).
pub open spec fn provider_outcome<T>(o: VfsOutcome<T>, op: VfsOperation, caveat: Option<Seq<char>>) -> bool {
    exists|r: VfsResult<T>| from_provider(r, op, caveat, o)
}

/// The outcome of `op` on `path` in a service whose mounts are `m`: blocked when the
/// path is not mounted, blocked with the capability reason and hint when the mount
/// does not support `op`, and otherwise whatever the provider gave (with the
/// non-atomic caveat for a rename on SAF).
pub open spec fn gated_outcome<T>(m: Map<Seq<Seq<char>>, MountPoint>, path: Seq<char>, op: VfsOperation, o: VfsOutcome<T>) -> bool {
    let p = path_components(path);
    if !has_cover(m, p) {
        blocked_as(o, op, "Path not mounted: "@ + path, None)
    } else {
        let caps = m[best_key(m, p)].capabilities;
        if !caps.supported@.contains(op) {
            blocked_as(o, op, unsupported_reason(op) + "\nPath: "@ + path, hint_text(op))
        } else if caps.is_saf && op == VfsOperation::Rename {
            provider_outcome(o, op, Some(rename_caveat()))
        } else {
            provider_outcome(o, op, None)
        }
    }
}

/// The outcome of renaming `from` to `to`: blocked when either path is not mounted
/// (checked for `from` first), blocked with the copy-and-delete hint when they are
/// on different mounts, and otherwise gated like any operation on `from`.
pub open spec fn rename_outcome<T>(m: Map<Seq<Seq<char>>, MountPoint>, from: Seq<char>, to: Seq<char>, o: VfsOutcome<T>) -> bool {
    let pf = path_components(from);
    let pt = path_components(to);
    if !has_cover(m, pf) {
        blocked_as(o, VfsOperation::Rename, "Path not mounted: "@ + from, None)
    } else if !has_cover(m, pt) {
        blocked_as(o, VfsOperation::Rename, "Path not mounted: "@ + to, None)
    } else if best_key(m, pf) != best_key(m, pt) {
        blocked_as(o, VfsOperation::Rename, cross_mount_reason(), Some(cross_mount_hint()))
    } else {
        gated_outcome(m, from, VfsOperation::Rename, o)
    }
}

/// The mount a request on `path` runs on: the longest one covering it.
pub open spec fn run_key(m: Map<Seq<Seq<char>>, MountPoint>, path: Seq<char>) -> Seq<Seq<char>> {
    best_key(m, path_components(path))
}

/// The path a request on `path` hands its provider: relative to the mount it runs on.
pub open spec fn run_path(m: Map<Seq<Seq<char>>, MountPoint>, path: Seq<char>) -> Seq<char> {
    rest_after(path, run_key(m, path).len())
}

/// Whether the capability check lets `op` on `path` reach a provider.
pub open spec fn runs(m: Map<Seq<Seq<char>>, MountPoint>, path: Seq<char>, op: VfsOperation) -> bool {
    has_cover(m, path_components(path)) && m[run_key(m, path)].capabilities.supported@.contains(op)
}

/// The caveat an outcome of `op` on `path` carries: the non-atomic note for a rename
/// on SAF.
pub open spec fn run_caveat(m: Map<Seq<Seq<char>>, MountPoint>, path: Seq<char>, op: VfsOperation) -> Option<Seq<char>> {
    if m[run_key(m, path)].capabilities.is_saf && op == VfsOperation::Rename {
        Some(rename_caveat())
    } else {
        None
    }
}

/// Whether a rename of `from` to `to` reaches a provider: both are mounted, on the
/// same mount, and that mount supports rename.
pub open spec fn rename_runs(m: Map<Seq<Seq<char>>, MountPoint>, from: Seq<char>, to: Seq<char>) -> bool {
    &&& runs(m, from, VfsOperation::Rename)
    &&& has_cover(m, path_components(to))
    &&& run_key(m, from) == run_key(m, to)
}

/// `after` is `before` with `v` stored under `k`.
pub open spec fn inserted<V>(v: V, k: Seq<Seq<char>>, before: Map<Seq<Seq<char>>, V>, after: Map<Seq<Seq<char>>, V>) -> bool {
    after == before.insert(k, v)
}

/// The suggested next step for an operation that commonly blocks on SAF.
fn hint_for(op: VfsOperation) -> (h: Option<String>)
    ensures
        opt_text(h) == hint_text(op),
{
    match op {
        VfsOperation::Chmod | VfsOperation::Chown => Some(
            owned(
                "Permissions can't be changed on external storage. Move this file to internal storage if the tool you're using requires chmod to work.",
            ),
        ),
        VfsOperation::Symlink | VfsOperation::Hardlink => Some(
            owned(
                "Symbolic links aren't supported on external storage — this will break npm, yarn, and Python venv. Run this project from internal storage instead.",
            ),
        ),
        VfsOperation::Watch => Some(
            owned(
                "File watching isn't supported here, so live-reload tools won't fire. Move the project to internal storage if you need file watching.",
            ),
        ),
        VfsOperation::Mmap | VfsOperation::Lock => Some(
            owned(
                "This operation needs direct file-descriptor access, which external storage doesn't provide. Internal storage supports it.",
            ),
        ),
        _ => None,
    }
}

/// What the capability check decided for one request.
pub enum Plan<'a> {
    /// The request is refused; no provider is called.
    Refuse { operation: VfsOperation, reason: String, hint: Option<String> },
    /// The request goes to `provider` with the mount-relative path, and the outcome
    /// carries `caveat` when the operation is only partly supported.
    Run { provider: &'a Arc<dyn FsProvider>, relative: String, caveat: Option<String> },
}

/// The plan for `op` on `path` in a service whose mounts are `m` and providers `pm`:
/// refused when the path is not mounted or its mount does not support `op`;
/// otherwise run on the provider of the longest covering mount, with the path
/// relative to that mount.
pub open spec fn plan_ok(
    m: Map<Seq<Seq<char>>, MountPoint>,
    pm: Map<Seq<Seq<char>>, Arc<dyn FsProvider>>,
    path: Seq<char>,
    op: VfsOperation,
    pl: Plan,
) -> bool {
    let p = path_components(path);
    if !has_cover(m, p) {
        pl matches Plan::Refuse { operation, reason, hint } && operation == op && reason@ == "Path not mounted: "@
            + path && hint is None
    } else {
        let k = best_key(m, p);
        let caps = m[k].capabilities;
        if !caps.supported@.contains(op) {
            pl matches Plan::Refuse { operation, reason, hint } && operation == op && reason@ == unsupported_reason(op)
                + "\nPath: "@ + path && opt_text(hint) == hint_text(op)
        } else {
            pl matches Plan::Run { provider, relative, caveat } && *provider == pm[k] && relative@ == rest_after(
                path,
                k.len(),
            ) && opt_text(caveat) == (if caps.is_saf && op == VfsOperation::Rename {
                Some(rename_caveat())
            } else {
                None
            })
        }
    }
}

/// What the capability check decided for a rename.
pub enum RenamePlan<'a> {
    /// The rename is refused; no provider is called.
    Refuse { reason: String, hint: Option<String> },
    /// The rename goes to `provider` with both paths relative to their (common)
    /// mount, and the outcome carries `caveat` when rename is only partly supported.
    Run { provider: &'a Arc<dyn FsProvider>, from: String, to: String, caveat: Option<String> },
}

/// The plan for renaming `from` to `to`: refused when either path is not mounted
/// (`from` checked first), when they are on different mounts, or when the mount
/// does not support rename; otherwise run on the mount's provider with both paths
/// relative to the mount.
pub open spec fn rename_plan_ok(
    m: Map<Seq<Seq<char>>, MountPoint>,
    pm: Map<Seq<Seq<char>>, Arc<dyn FsProvider>>,
    from: Seq<char>,
    to: Seq<char>,
    pl: RenamePlan,
) -> bool {
    let pf = path_components(from);
    let pt = path_components(to);
    if !has_cover(m, pf) {
        pl matches RenamePlan::Refuse { reason, hint } && reason@ == "Path not mounted: "@ + from && hint is None
    } else if !has_cover(m, pt) {
        pl matches RenamePlan::Refuse { reason, hint } && reason@ == "Path not mounted: "@ + to && hint is None
    } else if best_key(m, pf) != best_key(m, pt) {
        pl matches RenamePlan::Refuse { reason, hint } && reason@ == cross_mount_reason() && opt_text(hint) == Some(
            cross_mount_hint(),
        )
    } else {
        let k = best_key(m, pf);
        let caps = m[k].capabilities;
        if !caps.supported@.contains(VfsOperation::Rename) {
            pl matches RenamePlan::Refuse { reason, hint } && reason@ == unsupported_reason(VfsOperation::Rename)
                + "\nPath: "@ + from && opt_text(hint) == hint_text(VfsOperation::Rename)
        } else {
            pl matches RenamePlan::Run { provider, from: fr, to: tr, caveat } && *provider == pm[k] && fr@ == rest_after(
                from,
                k.len(),
            ) && tr@ == rest_after(to, k.len()) && opt_text(caveat) == (if caps.is_saf {
                Some(rename_caveat())
            } else {
                None
            })
        }
    }
}

/// The outcome for a provider result, given the operation and the plan's caveat.
pub fn finish<T>(r: VfsResult<T>, op: VfsOperation, caveat: Option<String>) -> (o: VfsOutcome<T>)
    ensures
        from_provider(r, op, opt_text(caveat), o),
{
    match r {
        Ok(v) => match caveat {
            Some(c) => VfsOutcome::Degraded { value: v, caveat: c },
            None => VfsOutcome::Done(v),
        },
        Err(e) => VfsOutcome::Blocked { operation: op, reason: e.message(), hint: None },
    }
}

/// Ties a [`MountTable`] (path to capabilities) to the providers that do the I/O,
/// and enforces the former before calling the latter.
pub struct VfsService {
    mounts: MountTable,
    providers: Vec<Keyed<Arc<dyn FsProvider>>>,
}

impl VfsService {
    /// The mounts of the service.
    pub closed spec fn mount_map(&self) -> Map<Seq<Seq<char>>, MountPoint> {
        self.mounts@
    }

    /// The provider registered for each mount path.
    pub closed spec fn provider_map(&self) -> Map<Seq<Seq<char>>, Arc<dyn FsProvider>> {
        keyed_map(self.providers@)
    }

    /// Every mount has exactly one provider, and the mount table is well formed.
    pub closed spec fn wf(&self) -> bool {
        &&& self.mounts.wf()
        &&& distinct_keys(self.providers@)
        &&& self.provider_map().dom() == self.mounts@.dom()
    }

    /// A service with internal storage `internal_root`, served by
    /// `internal_provider`, mounted at `/`.
    pub fn new(internal_root: &str, internal_provider: Arc<dyn FsProvider>) -> (s: Self)
        ensures
            s.wf(),
            s.mount_map().dom() == set![root_components()],
            is_internal_mount(s.mount_map()[root_components()], "/"@, internal_root@),
            s.provider_map()[root_components()] == internal_provider,
    {
        let mounts = MountTable::new(internal_root);
        let key = components("/");
        let entry = Keyed { key, value: internal_provider };
        let mut providers = Vec::new();
        providers.push(entry);
        let s = VfsService { mounts, providers };
        proof {
            s.mounts.lemma_wf();
            reveal_strlit("/");
            assert(path_components("/"@) =~= root_components()) by {
                let t = "/"@;
                assert(t.drop_last() =~= Seq::<char>::empty());
                assert(crate::vfs::path::split_state(t.drop_last()) == (Seq::<Seq<char>>::empty(), Seq::<char>::empty()));
                assert(crate::vfs::path::body_components(t) =~= Seq::<Seq<char>>::empty());
            }
            assert(s.providers@.drop_last() =~= Seq::<Keyed<Arc<dyn FsProvider>>>::empty());
            lemma_keyed_map(s.providers@);
            assert(s.provider_map().dom() =~= s.mounts@.dom());
        }
        s
    }

    /// Mounts an additional provider at the mount's virtual path, replacing any
    /// mount there. Mounting at `/` fails as the mount table refuses it, and changes
    /// nothing.
    pub fn mount_provider(&mut self, mount: MountPoint, provider: Arc<dyn FsProvider>) -> (r: VfsResult<()>)
        requires
            old(self).wf(),
        ensures
            final(self).wf(),
            path_components(mount.virtual_path@) == root_components() ==> {
                &&& r matches Err(VfsError::PermissionDenied(m)) && m@ == root_unmount_text()
                &&& final(self).mount_map() == old(self).mount_map()
                &&& final(self).provider_map() == old(self).provider_map()
            },
            path_components(mount.virtual_path@) != root_components() ==> {
                &&& r is Ok
                &&& final(self).mount_map() == old(self).mount_map().insert(path_components(mount.virtual_path@), mount)
                &&& inserted(provider, path_components(mount.virtual_path@), old(self).provider_map(), final(self).provider_map())
            },
    {
        let key = components(mount.virtual_path.as_str());
        match self.mounts.mount(mount) {
            Err(e) => Err(e),
            Ok(()) => {
                let entry = Keyed { key, value: provider };
                put(&mut self.providers, entry);
                proof {
                    assert(self.provider_map().dom() =~= self.mounts@.dom());
                }
                Ok(())
            },
        }
    }

    /// Removes a mount and its provider, with the mount table's errors.
    pub fn unmount(&mut self, virtual_path: &str) -> (r: VfsResult<()>)
        requires
            old(self).wf(),
        ensures
            final(self).wf(),
            path_components(virtual_path@) == root_components() ==> {
                &&& r matches Err(VfsError::PermissionDenied(m)) && m@ == root_unmount_text()
                &&& final(self).mount_map() == old(self).mount_map()
                &&& final(self).provider_map() == old(self).provider_map()
            },
            path_components(virtual_path@) != root_components() && old(self).mount_map().dom().contains(
                path_components(virtual_path@),
            ) ==> {
                &&& r is Ok
                &&& final(self).mount_map() == old(self).mount_map().remove(path_components(virtual_path@))
                &&& final(self).provider_map() == old(self).provider_map().remove(path_components(virtual_path@))
            },
            !old(self).mount_map().dom().contains(path_components(virtual_path@)) ==> {
                &&& r matches Err(VfsError::NotMounted(m)) && m@ == virtual_path@
                &&& final(self).mount_map() == old(self).mount_map()
                &&& final(self).provider_map() == old(self).provider_map()
            },
    {
        match self.mounts.unmount(virtual_path) {
            Err(e) => Err(e),
            Ok(()) => {
                let key = components(virtual_path);
                match find_key(&self.providers, &key) {
                    Some(i) => {
                        remove_at(&mut self.providers, i);
                    },
                    None => {},
                }
                proof {
                    assert(self.provider_map().dom() =~= self.mounts@.dom());
                }
                Ok(())
            },
        }
    }

    /// The mount table, read-only.
    pub fn mounts(&self) -> (t: &MountTable)
        requires
            self.wf(),
        ensures
            t.wf(),
            t@ == self.mount_map(),
    {
        &self.mounts
    }

    /// The mount, provider and mount-relative path for a path.
    fn resolve_provider(&self, virtual_path: &str) -> (r: VfsResult<(&MountPoint, &Arc<dyn FsProvider>, String)>)
        requires
            self.wf(),
        ensures
            r is Err <==> !has_cover(self.mount_map(), path_components(virtual_path@)),
            r matches Err(e) ==> e matches VfsError::NotMounted(m) && m@ == virtual_path@,
            r matches Ok((m, p, rel)) ==> {
                let k = best_key(self.mount_map(), path_components(virtual_path@));
                &&& is_best_mount(self.mount_map(), path_components(virtual_path@), k)
                &&& *m == self.mount_map()[k]
                &&& *p == self.provider_map()[k]
                &&& rel@ == rest_after(virtual_path@, k.len())
            },
    {
        match self.mounts.resolve(virtual_path) {
            Err(e) => Err(e),
            Ok((mount, rel)) => {
                let key = components(mount.virtual_path.as_str());
                let ghost k = path_components(mount.virtual_path@);
                proof {
                    lemma_best_key(self.mount_map(), path_components(virtual_path@), k);
                }
                match find_key(&self.providers, &key) {
                    Some(i) => {
                        proof {
                            lemma_keyed_map(self.providers@);
                        }
                        Ok((mount, &self.providers[i].value, rel))
                    },
                    None => {
                        assert(false);
                        Err(VfsError::NotMounted(owned(virtual_path)))
                    },
                }
            },
        }
    }

    /// The capability check for `op` on `path`: whether the request is refused, or
    /// which provider it goes to with which path.
    pub fn plan(&self, path: &str, op: VfsOperation) -> (pl: Plan)
        requires
            self.wf(),
        ensures
            plan_ok(self.mount_map(), self.provider_map(), path@, op, pl),
    {
        match self.resolve_provider(path) {
            Err(e) => Plan::Refuse { operation: op, reason: e.message(), hint: None },
            Ok((mount, provider, relative)) => match check_operation(path, op, &mount.capabilities) {
                OperationCheck::NotSupported { operation, reason } => Plan::Refuse {
                    hint: hint_for(operation),
                    operation,
                    reason,
                },
                OperationCheck::Supported => Plan::Run { provider, relative, caveat: None },
                OperationCheck::PartialSupport { operation, caveat } => Plan::Run {
                    provider,
                    relative,
                    caveat: Some(caveat),
                },
            },
        }
    }

    /// Reads a file.
    pub fn read_file(&self, path: &str) -> (o: VfsOutcome<Vec<u8>>)
        requires
            self.wf(),
        ensures
            gated_outcome(self.mount_map(), path@, VfsOperation::Read, o),
            runs(self.mount_map(), path@, VfsOperation::Read) ==> exists|r: VfsResult<Vec<u8>>|
                self.provider_map()[run_key(self.mount_map(), path@)].read_gives(run_path(self.mount_map(), path@), r) && from_provider(r, VfsOperation::Read, run_caveat(self.mount_map(), path@, VfsOperation::Read), o),
    {
        match self.plan(path, VfsOperation::Read) {
            Plan::Refuse { operation, reason, hint } => VfsOutcome::Blocked { operation, reason, hint },
            Plan::Run { provider, relative, caveat } => finish(
                provider.read_file(relative.as_str()),
                VfsOperation::Read,
                caveat,
            ),
        }
    }

    /// Writes a file.
    pub fn write_file(&self, path: &str, contents: &[u8]) -> (o: VfsOutcome<()>)
        requires
            self.wf(),
        ensures
            gated_outcome(self.mount_map(), path@, VfsOperation::Write, o),
            runs(self.mount_map(), path@, VfsOperation::Write) ==> exists|r: VfsResult<()>|
                self.provider_map()[run_key(self.mount_map(), path@)].write_gives(run_path(self.mount_map(), path@), contents@, r) && from_provider(r, VfsOperation::Write, run_caveat(self.mount_map(), path@, VfsOperation::Write), o),
    {
        match self.plan(path, VfsOperation::Write) {
            Plan::Refuse { operation, reason, hint } => VfsOutcome::Blocked { operation, reason, hint },
            Plan::Run { provider, relative, caveat } => finish(
                provider.write_file(relative.as_str(), contents),
                VfsOperation::Write,
                caveat,
            ),
        }
    }

    /// A file's metadata.
    pub fn metadata(&self, path: &str) -> (o: VfsOutcome<FileMetadata>)
        requires
            self.wf(),
        ensures
            gated_outcome(self.mount_map(), path@, VfsOperation::Stat, o),
            runs(self.mount_map(), path@, VfsOperation::Stat) ==> exists|r: VfsResult<FileMetadata>|
                self.provider_map()[run_key(self.mount_map(), path@)].metadata_gives(run_path(self.mount_map(), path@), r) && from_provider(r, VfsOperation::Stat, run_caveat(self.mount_map(), path@, VfsOperation::Stat), o),
    {
        match self.plan(path, VfsOperation::Stat) {
            Plan::Refuse { operation, reason, hint } => VfsOutcome::Blocked { operation, reason, hint },
            Plan::Run { provider, relative, caveat } => finish(
                provider.metadata(relative.as_str()),
                VfsOperation::Stat,
                caveat,
            ),
        }
    }

    /// The entries of a directory.
    pub fn list_dir(&self, path: &str) -> (o: VfsOutcome<Vec<DirEntry>>)
        requires
            self.wf(),
        ensures
            gated_outcome(self.mount_map(), path@, VfsOperation::ListDir, o),
            runs(self.mount_map(), path@, VfsOperation::ListDir) ==> exists|r: VfsResult<Vec<DirEntry>>|
                self.provider_map()[run_key(self.mount_map(), path@)].list_dir_gives(run_path(self.mount_map(), path@), r) && from_provider(r, VfsOperation::ListDir, run_caveat(self.mount_map(), path@, VfsOperation::ListDir), o),
    {
        match self.plan(path, VfsOperation::ListDir) {
            Plan::Refuse { operation, reason, hint } => VfsOutcome::Blocked { operation, reason, hint },
            Plan::Run { provider, relative, caveat } => finish(
                provider.list_dir(relative.as_str()),
                VfsOperation::ListDir,
                caveat,
            ),
        }
    }

    /// Creates a directory.
    pub fn create_dir(&self, path: &str) -> (o: VfsOutcome<()>)
        requires
            self.wf(),
        ensures
            gated_outcome(self.mount_map(), path@, VfsOperation::Mkdir, o),
            runs(self.mount_map(), path@, VfsOperation::Mkdir) ==> exists|r: VfsResult<()>|
                self.provider_map()[run_key(self.mount_map(), path@)].create_dir_gives(run_path(self.mount_map(), path@), r) && from_provider(r, VfsOperation::Mkdir, run_caveat(self.mount_map(), path@, VfsOperation::Mkdir), o),
    {
        match self.plan(path, VfsOperation::Mkdir) {
            Plan::Refuse { operation, reason, hint } => VfsOutcome::Blocked { operation, reason, hint },
            Plan::Run { provider, relative, caveat } => finish(
                provider.create_dir(relative.as_str()),
                VfsOperation::Mkdir,
                caveat,
            ),
        }
    }

    /// Deletes a file or an empty directory.
    pub fn delete(&self, path: &str) -> (o: VfsOutcome<()>)
        requires
            self.wf(),
        ensures
            gated_outcome(self.mount_map(), path@, VfsOperation::Delete, o),
            runs(self.mount_map(), path@, VfsOperation::Delete) ==> exists|r: VfsResult<()>|
                self.provider_map()[run_key(self.mount_map(), path@)].delete_gives(run_path(self.mount_map(), path@), r) && from_provider(r, VfsOperation::Delete, run_caveat(self.mount_map(), path@, VfsOperation::Delete), o),
    {
        match self.plan(path, VfsOperation::Delete) {
            Plan::Refuse { operation, reason, hint } => VfsOutcome::Blocked { operation, reason, hint },
            Plan::Run { provider, relative, caveat } => finish(
                provider.delete(relative.as_str()),
                VfsOperation::Delete,
                caveat,
            ),
        }
    }

    /// Changes file permissions.
    pub fn chmod(&self, path: &str, mode: u32) -> (o: VfsOutcome<()>)
        requires
            self.wf(),
        ensures
            gated_outcome(self.mount_map(), path@, VfsOperation::Chmod, o),
            runs(self.mount_map(), path@, VfsOperation::Chmod) ==> exists|r: VfsResult<()>|
                self.provider_map()[run_key(self.mount_map(), path@)].chmod_gives(run_path(self.mount_map(), path@), mode, r) && from_provider(r, VfsOperation::Chmod, run_caveat(self.mount_map(), path@, VfsOperation::Chmod), o),
    {
        match self.plan(path, VfsOperation::Chmod) {
            Plan::Refuse { operation, reason, hint } => VfsOutcome::Blocked { operation, reason, hint },
            Plan::Run { provider, relative, caveat } => finish(
                provider.chmod(relative.as_str(), mode),
                VfsOperation::Chmod,
                caveat,
            ),
        }
    }

    /// The target of a symbolic link (checked as a symlink operation).
    pub fn readlink(&self, path: &str) -> (o: VfsOutcome<String>)
        requires
            self.wf(),
        ensures
            gated_outcome(self.mount_map(), path@, VfsOperation::Symlink, o),
            runs(self.mount_map(), path@, VfsOperation::Symlink) ==> exists|r: VfsResult<String>|
                self.provider_map()[run_key(self.mount_map(), path@)].readlink_gives(run_path(self.mount_map(), path@), r) && from_provider(r, VfsOperation::Symlink, run_caveat(self.mount_map(), path@, VfsOperation::Symlink), o),
    {
        match self.plan(path, VfsOperation::Symlink) {
            Plan::Refuse { operation, reason, hint } => VfsOutcome::Blocked { operation, reason, hint },
            Plan::Run { provider, relative, caveat } => finish(
                provider.readlink(relative.as_str()),
                VfsOperation::Symlink,
                caveat,
            ),
        }
    }

    /// Creates a symlink at `link` pointing to `target`. The capability is checked
    /// against the mount of `link` (the filesystem the link itself lives on); the
    /// target is handed to the provider unchanged.
    pub fn symlink(&self, target: &str, link: &str) -> (o: VfsOutcome<()>)
        requires
            self.wf(),
        ensures
            gated_outcome(self.mount_map(), link@, VfsOperation::Symlink, o),
            runs(self.mount_map(), link@, VfsOperation::Symlink) ==> exists|r: VfsResult<()>|
                self.provider_map()[run_key(self.mount_map(), link@)].symlink_gives(target@, run_path(self.mount_map(), link@), r) && from_provider(r, VfsOperation::Symlink, run_caveat(self.mount_map(), link@, VfsOperation::Symlink), o),
    {
        match self.plan(link, VfsOperation::Symlink) {
            Plan::Refuse { operation, reason, hint } => VfsOutcome::Blocked { operation, reason, hint },
            Plan::Run { provider, relative, caveat } => finish(
                provider.symlink(target, relative.as_str()),
                VfsOperation::Symlink,
                caveat,
            ),
        }
    }

    /// The capability check for renaming `from` to `to`: whether the rename is
    /// refused, or which provider it goes to with which paths.
    pub fn rename_plan(&self, from: &str, to: &str) -> (pl: RenamePlan)
        requires
            self.wf(),
        ensures
            rename_plan_ok(self.mount_map(), self.provider_map(), from@, to@, pl),
    {
        let (from_mount, from_provider, from_rel) = match self.resolve_provider(from) {
            Ok(v) => v,
            Err(e) => {
                return RenamePlan::Refuse { reason: e.message(), hint: None };
            },
        };
        let (to_mount, _to_provider, to_rel) = match self.resolve_provider(to) {
            Ok(v) => v,
            Err(e) => {
                return RenamePlan::Refuse { reason: e.message(), hint: None };
            },
        };
        let from_key = components(from_mount.virtual_path.as_str());
        let to_key = components(to_mount.virtual_path.as_str());
        proof {
            self.mounts.lemma_wf();
        }
        if !comps_equal(&from_key, &to_key) {
            return RenamePlan::Refuse {
                reason: owned("Cross-mount rename is not supported yet (from and to are on different filesystems)."),
                hint: Some(owned("Copy the file to the destination and delete the original instead.")),
            };
        }
        match check_operation(from, VfsOperation::Rename, &from_mount.capabilities) {
            OperationCheck::NotSupported { operation, reason } => RenamePlan::Refuse {
                hint: hint_for(operation),
                reason,
            },
            OperationCheck::Supported => RenamePlan::Run {
                provider: from_provider,
                from: from_rel,
                to: to_rel,
                caveat: None,
            },
            OperationCheck::PartialSupport { operation, caveat } => RenamePlan::Run {
                provider: from_provider,
                from: from_rel,
                to: to_rel,
                caveat: Some(caveat),
            },
        }
    }

    /// Renames or moves a file within one mount. A rename between two mounts is
    /// blocked (it would need a copy and a delete), not attempted; the provider is
    /// called only when the plan says to run.
    pub fn rename(&self, from: &str, to: &str) -> (o: VfsOutcome<()>)
        requires
            self.wf(),
        ensures
            rename_outcome(self.mount_map(), from@, to@, o),
            rename_runs(self.mount_map(), from@, to@) ==> exists|r: VfsResult<()>|
                self.provider_map()[run_key(self.mount_map(), from@)].rename_gives(
                    run_path(self.mount_map(), from@),
                    rest_after(to@, run_key(self.mount_map(), from@).len()),
                    r,
                ) && from_provider(r, VfsOperation::Rename, run_caveat(self.mount_map(), from@, VfsOperation::Rename), o),
    {
        match self.rename_plan(from, to) {
            RenamePlan::Refuse { reason, hint } => VfsOutcome::Blocked { operation: VfsOperation::Rename, reason, hint },
            RenamePlan::Run { provider, from, to, caveat } => finish(
                provider.rename(from.as_str(), to.as_str()),
                VfsOperation::Rename,
                caveat,
            ),
        }
    }
}

} // verus!
