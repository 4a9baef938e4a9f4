//! The mount table: virtual Unix paths mapped to storage locations and their
//! capabilities.
//!
//! Mounts are keyed by the components of their virtual path. The root `/` is
//! mounted on internal storage when the table is made and can never be unmounted
//! or replaced. A path belongs to the mount whose path is the longest component
//! prefix of it (a mount with no components never matches).

use vstd::prelude::*;

use crate::text::owned;
use crate::utils::error::{VfsError, VfsResult};
use crate::vfs::keyed::{distinct_keys, find_key, key_of, keyed_map, lemma_keyed_map, put, remove_at, Keyed};
use crate::vfs::capabilities::{is_internal_caps, is_saf_caps, warning_text, VfsCapabilities, VfsOperation};
use crate::vfs::path::{
    body_components, comps_prefix, comps_view, components, is_root_components, path_components,
    lemma_rest_components, rest_after, rest_of_path, root_components, split_state,
};

verus! {

/// Source of a mount point.
#[derive(Debug, Clone)]
pub enum MountSource {
    /// Internal storage path (direct filesystem access).
    Internal(String),
    /// SAF URI (`content://` URI).
    SafUri(String),
}

/// A virtual mount point.
#[derive(Debug, Clone)]
pub struct MountPoint {
    /// Virtual Unix-style path (e.g. `/mnt/downloads`).
    pub virtual_path: String,
    /// Source URI or path.
    pub source: MountSource,
    /// Filesystem capabilities.
    pub capabilities: VfsCapabilities,
    /// Whether the mount is currently active.
    pub active: bool,
    /// User-friendly display name.
    pub display_name: String,
}

/// `m` mounts the internal storage directory `real` at `vp`, named after `vp`.
pub open spec fn is_internal_mount(m: MountPoint, vp: Seq<char>, real_path: Seq<char>) -> bool {
    &&& m.virtual_path@ == vp
    &&& m.source matches MountSource::Internal(p) && p@ == real_path
    &&& is_internal_caps(m.capabilities)
    &&& m.active
    &&& m.display_name@ == vp
}

/// `m` mounts the SAF tree `uri` at `vp` under the name `name`.
pub open spec fn is_saf_mount(m: MountPoint, vp: Seq<char>, uri: Seq<char>, name: Seq<char>) -> bool {
    &&& m.virtual_path@ == vp
    &&& m.source matches MountSource::SafUri(u) && u@ == uri
    &&& is_saf_caps(m.capabilities)
    &&& m.active
    &&& m.display_name@ == name
}

impl MountPoint {
    /// A mount of internal storage `real_path` at `virtual_path`.
    pub fn internal(virtual_path: &str, real_path: &str) -> (m: Self)
        ensures
            is_internal_mount(m, virtual_path@, real_path@),
    {
        MountPoint {
            display_name: owned(virtual_path),
            virtual_path: owned(virtual_path),
            source: MountSource::Internal(owned(real_path)),
            capabilities: VfsCapabilities::internal_storage(),
            active: true,
        }
    }

    /// A mount of the SAF tree `uri` at `virtual_path`.
    pub fn saf(virtual_path: &str, uri: &str, display_name: &str) -> (m: Self)
        ensures
            is_saf_mount(m, virtual_path@, uri@, display_name@),
    {
        MountPoint {
            virtual_path: owned(virtual_path),
            source: MountSource::SafUri(owned(uri)),
            capabilities: VfsCapabilities::saf_external(),
            active: true,
            display_name: owned(display_name),
        }
    }

    /// Whether `op` is supported on this mount.
    pub fn supports(&self, op: VfsOperation) -> (r: bool)
        ensures
            r == self.capabilities.supported@.contains(op),
    {
        self.capabilities.supports(op)
    }

    /// The limitation warning of this mount's capabilities.
    pub fn limitation_warning(&self) -> (w: Option<String>)
        ensures
            w matches Some(s) ==> warning_text(self.capabilities) == Some(s@),
            w is None ==> warning_text(self.capabilities) is None,
    {
        self.capabilities.limitation_warning()
    }
}

/// The mount table.
pub struct MountTable {
    entries: Vec<Keyed<MountPoint>>,
    internal_root: String,
}

impl View for MountTable {
    type V = Map<Seq<Seq<char>>, MountPoint>;

    /// The mounts, keyed by the components of their virtual paths.
    closed spec fn view(&self) -> Map<Seq<Seq<char>>, MountPoint> {
        keyed_map(self.entries@)
    }
}

/// `k` is a mount path that covers the path with components `p`.
pub open spec fn covers(k: Seq<Seq<char>>, p: Seq<Seq<char>>) -> bool {
    k.len() > 0 && k.is_prefix_of(p)
}

/// Some mount of `m` covers `p`.
pub open spec fn has_cover(m: Map<Seq<Seq<char>>, MountPoint>, p: Seq<Seq<char>>) -> bool {
    exists|k: Seq<Seq<char>>| m.dom().contains(k) && covers(k, p)
}

/// `k` is the longest mount path of `m` that covers `p`.
pub open spec fn is_best_mount(m: Map<Seq<Seq<char>>, MountPoint>, p: Seq<Seq<char>>, k: Seq<Seq<char>>) -> bool {
    &&& m.dom().contains(k)
    &&& covers(k, p)
    &&& forall|k2: Seq<Seq<char>>| m.dom().contains(k2) && covers(k2, p) ==> k2.len() <= k.len()
}

/// The longest mount path of `m` covering `p` (meaningful when one covers it).
pub open spec fn best_key(m: Map<Seq<Seq<char>>, MountPoint>, p: Seq<Seq<char>>) -> Seq<Seq<char>> {
    choose|k: Seq<Seq<char>>| is_best_mount(m, p, k)
}

/// The text of the error refusing to unmount the root.
pub open spec fn root_unmount_text() -> Seq<char> {
    "Cannot unmount root filesystem"@
}

impl MountTable {
    /// The table's invariant: keys are distinct and are the components of their
    /// mount's path, and the root is mounted on internal storage at `root_path`.
    pub closed spec fn wf(&self) -> bool {
        &&& distinct_keys(self.entries@)
        &&& forall|i: int| 0 <= i < self.entries@.len() ==> key_of(#[trigger] self.entries@[i])
            == path_components(self.entries@[i].value.virtual_path@)
        &&& self@.dom().contains(root_components())
        &&& is_internal_mount(self@[root_components()], "/"@, self.internal_root@)
    }

    /// The internal storage directory backing the root mount.
    pub closed spec fn root_path(&self) -> Seq<char> {
        self.internal_root@
    }

    /// In a well-formed table every mount is stored under its own path, and the root
    /// is mounted on internal storage.
    pub proof fn lemma_wf(&self)
        requires
            self.wf(),
        ensures
            self@.dom().finite(),
            forall|k: Seq<Seq<char>>| #[trigger] self@.dom().contains(k) ==> path_components(self@[k].virtual_path@) == k,
            self@.dom().contains(root_components()),
            is_internal_mount(self@[root_components()], "/"@, self.root_path()),
    {
        lemma_keyed_map(self.entries@);
        assert forall|k: Seq<Seq<char>>| #[trigger] self@.dom().contains(k) implies path_components(self@[k].virtual_path@) == k by {
            let i = choose|i: int| 0 <= i < self.entries@.len() && key_of(self.entries@[i]) == k;
            assert(self@[key_of(self.entries@[i])] == self.entries@[i].value);
        }
    }

    /// A table with internal storage `internal_root` mounted at `/`.
    pub fn new(internal_root: &str) -> (t: Self)
        ensures
            t.wf(),
            t.root_path() == internal_root@,
            t@.dom() == set![root_components()],
    {
        let root = MountPoint::internal("/", internal_root);
        let key = components("/");
        proof {
            reveal_strlit("/");
            assert(path_components("/"@) =~= root_components()) by {
                let s = "/"@;
                assert(s.drop_last() =~= Seq::<char>::empty());
                assert(split_state(s.drop_last()) == (Seq::<Seq<char>>::empty(), Seq::<char>::empty()));
                assert(body_components(s) =~= Seq::<Seq<char>>::empty());
            }
        }
        let mut entries: Vec<Keyed<MountPoint>> = Vec::new();
        entries.push(Keyed { key, value: root });
        let t = MountTable { entries, internal_root: owned(internal_root) };
        proof {
            assert(t.entries@.drop_last() =~= Seq::<Keyed<MountPoint>>::empty());
            lemma_keyed_map(t.entries@);
            assert(t@.dom() =~= set![root_components()]);
        }
        t
    }

    /// The real filesystem path backing the root mount.
    pub fn internal_root(&self) -> (r: &str)
        ensures
            r@ == self.root_path(),
    {
        self.internal_root.as_str()
    }

    fn best_index(&self, comps: &Vec<Vec<char>>) -> (r: Option<usize>)
        requires
            self.wf(),
        ensures
            match r {
                Some(i) => i < self.entries@.len() && is_best_mount(self@, comps_view(comps@), key_of(self.entries@[i as int])),
                None => !has_cover(self@, comps_view(comps@)),
            },
    {
        proof {
            lemma_keyed_map(self.entries@);
        }
        let ghost p = comps_view(comps@);
        let mut best: Option<usize> = None;
        let mut best_len: usize = 0;
        let mut i: usize = 0;
        while i < self.entries.len()
            invariant
                self.wf(),
                p == comps_view(comps@),
                i <= self.entries@.len(),
                match best {
                    Some(b) => b < i && covers(key_of(self.entries@[b as int]), p) && best_len == key_of(self.entries@[b as int]).len(),
                    None => best_len == 0,
                },
                forall|j: int| 0 <= j < i && covers(key_of(#[trigger] self.entries@[j]), p) ==> key_of(self.entries@[j]).len() <= best_len,
            decreases self.entries@.len() - i,
        {
            let len = self.entries[i].key.len();
            if len > best_len && comps_prefix(&self.entries[i].key, comps) {
                best = Some(i);
                best_len = len;
            }
            i = i + 1;
        }
        proof {
            match best {
                Some(b) => {
                    let k = key_of(self.entries@[b as int]);
                    assert forall|k2: Seq<Seq<char>>| self@.dom().contains(k2) && covers(k2, p) implies k2.len() <= k.len() by {
                        let j = choose|j: int| 0 <= j < self.entries@.len() && key_of(self.entries@[j]) == k2;
                        assert(covers(key_of(self.entries@[j]), p));
                    }
                },
                None => {
                    assert forall|k2: Seq<Seq<char>>| self@.dom().contains(k2) implies !covers(k2, p) by {
                        let j = choose|j: int| 0 <= j < self.entries@.len() && key_of(self.entries@[j]) == k2;
                        if covers(k2, p) {
                            assert(covers(key_of(self.entries@[j]), p));
                        }
                    }
                },
            }
        }
        best
    }

    /// Adds a mount point, replacing any mount at the same path. The root cannot be
    /// replaced: mounting at `/` fails with `PermissionDenied` and changes nothing.
    pub fn mount(&mut self, mount: MountPoint) -> (r: VfsResult<()>)
        requires
            old(self).wf(),
        ensures
            final(self).wf(),
            final(self).root_path() == old(self).root_path(),
            path_components(mount.virtual_path@) == root_components() ==> {
                &&& r matches Err(VfsError::PermissionDenied(m)) && m@ == root_unmount_text()
                &&& final(self)@ == old(self)@
            },
            path_components(mount.virtual_path@) != root_components() ==> {
                &&& r is Ok
                &&& final(self)@ == old(self)@.insert(path_components(mount.virtual_path@), mount)
            },
    {
        let key = components(mount.virtual_path.as_str());
        if is_root_components(&key) {
            return Err(VfsError::PermissionDenied(owned("Cannot unmount root filesystem")));
        }
        let ghost start = self.entries@;
        put(&mut self.entries, Keyed { key, value: mount });
        proof {
            let s = self.entries@;
            assert forall|i: int| 0 <= i < s.len() implies key_of(#[trigger] s[i]) == path_components(s[i].value.virtual_path@) by {
                if start.contains(s[i]) {
                    let j = choose|j: int| 0 <= j < start.len() && start[j] == s[i];
                    assert(key_of(start[j]) == path_components(start[j].value.virtual_path@));
                }
            }
        }
        Ok(())
    }

    /// Removes a mount point. The root cannot be unmounted (`PermissionDenied`); a
    /// path with no mount gives `NotMounted` carrying the path.
    pub fn unmount(&mut self, virtual_path: &str) -> (r: VfsResult<()>)
        requires
            old(self).wf(),
        ensures
            final(self).wf(),
            final(self).root_path() == old(self).root_path(),
            path_components(virtual_path@) == root_components() ==> {
                &&& r matches Err(VfsError::PermissionDenied(m)) && m@ == root_unmount_text()
                &&& final(self)@ == old(self)@
            },
            path_components(virtual_path@) != root_components() && old(self)@.dom().contains(path_components(virtual_path@))
                ==> {
                &&& r is Ok
                &&& final(self)@ == old(self)@.remove(path_components(virtual_path@))
            },
            !old(self)@.dom().contains(path_components(virtual_path@)) ==> {
                &&& r matches Err(VfsError::NotMounted(m)) && m@ == virtual_path@
                &&& final(self)@ == old(self)@
            },
    {
        let key = components(virtual_path);
        if is_root_components(&key) {
            assert(old(self)@.dom().contains(path_components(virtual_path@)));
            return Err(VfsError::PermissionDenied(owned("Cannot unmount root filesystem")));
        }
        match find_key(&self.entries, &key) {
            Some(i) => {
                let ghost start = self.entries@;
                remove_at(&mut self.entries, i);
                proof {
                    let s = self.entries@;
                    assert forall|j: int| 0 <= j < s.len() implies key_of(#[trigger] s[j]) == path_components(s[j].value.virtual_path@) by {
                        let x = choose|x: int| 0 <= x < start.len() && start[x] == s[j];
                        assert(key_of(start[x]) == path_components(start[x].value.virtual_path@));
                    }
                }
                Ok(())
            },
            None => Err(VfsError::NotMounted(owned(virtual_path))),
        }
    }

    /// The mount for a path: the mount whose path is the longest component prefix of
    /// it, if any.
    pub fn find_mount(&self, virtual_path: &str) -> (r: Option<&MountPoint>)
        requires
            self.wf(),
        ensures
            r is None <==> !has_cover(self@, path_components(virtual_path@)),
            r matches Some(m) ==> exists|k: Seq<Seq<char>>| #[trigger] is_best_mount(self@, path_components(virtual_path@), k)
                && *m == self@[k] && path_components(m.virtual_path@) == k,
    {
        let comps = components(virtual_path);
        match self.best_index(&comps) {
            Some(i) => {
                proof {
                    lemma_keyed_map(self.entries@);
                    let k = key_of(self.entries@[i as int]);
                    assert(is_best_mount(self@, path_components(virtual_path@), k));
                    assert(has_cover(self@, path_components(virtual_path@)));
                }
                Some(&self.entries[i].value)
            },
            None => None,
        }
    }

    /// A path resolved to its mount and the path relative to the mount. A path that
    /// no mount covers gives `NotMounted` carrying the path.
    pub fn resolve(&self, virtual_path: &str) -> (r: VfsResult<(&MountPoint, String)>)
        requires
            self.wf(),
        ensures
            r is Err <==> !has_cover(self@, path_components(virtual_path@)),
            r matches Err(e) ==> e matches VfsError::NotMounted(m) && m@ == virtual_path@,
            r matches Ok((m, rel)) ==> exists|k: Seq<Seq<char>>| #[trigger] is_best_mount(self@, path_components(virtual_path@), k)
                && *m == self@[k] && path_components(m.virtual_path@) == k
                && rel@ == rest_after(virtual_path@, k.len())
                && path_components(rel@) == path_components(virtual_path@).skip(k.len() as int),
    {
        let comps = components(virtual_path);
        match self.best_index(&comps) {
            Some(i) => {
                let entry = &self.entries[i];
                assert(comps_view(entry.key@).len() > 0);
                let rel = rest_of_path(virtual_path, entry.key.len());
                proof {
                    lemma_keyed_map(self.entries@);
                    let k = key_of(self.entries@[i as int]);
                    lemma_rest_components(virtual_path@, k.len());
                    assert(is_best_mount(self@, path_components(virtual_path@), k));
                    assert(has_cover(self@, path_components(virtual_path@)));
                }
                Ok((&entry.value, rel))
            },
            None => Err(VfsError::NotMounted(owned(virtual_path))),
        }
    }

    /// The capabilities for a path: those of its mount, or the SAF limitations for a
    /// path that no mount covers.
    pub fn get_capabilities(&self, virtual_path: &str) -> (c: VfsCapabilities)
        requires
            self.wf(),
        ensures
            has_cover(self@, path_components(virtual_path@)) ==> exists|k: Seq<Seq<char>>| #[trigger] is_best_mount(self@, path_components(virtual_path@), k)
                && c == self@[k].capabilities,
            !has_cover(self@, path_components(virtual_path@)) ==> is_saf_caps(c),
    {
        match self.find_mount(virtual_path) {
            Some(m) => m.capabilities,
            None => VfsCapabilities::saf_external(),
        }
    }

    /// Whether `op` is supported at a path; false for a path that no mount covers.
    pub fn supports_operation(&self, virtual_path: &str, op: VfsOperation) -> (r: bool)
        requires
            self.wf(),
        ensures
            has_cover(self@, path_components(virtual_path@)) ==> exists|k: Seq<Seq<char>>| #[trigger] is_best_mount(self@, path_components(virtual_path@), k)
                && r == self@[k].capabilities.supported@.contains(op),
            !has_cover(self@, path_components(virtual_path@)) ==> !r,
    {
        match self.find_mount(virtual_path) {
            Some(m) => m.supports(op),
            None => false,
        }
    }

    /// All mount points, each once.
    pub fn list_mounts(&self) -> (v: Vec<&MountPoint>)
        requires
            self.wf(),
        ensures
            v@.len() == self@.dom().len(),
            forall|i: int| 0 <= i < v@.len() ==> self@.dom().contains(path_components(v@[i].virtual_path@))
                && *v@[i] == self@[path_components(#[trigger] v@[i].virtual_path@)],
            forall|k: Seq<Seq<char>>| #[trigger] self@.dom().contains(k) ==> exists|i: int| 0 <= i < v@.len() && *v@[i] == self@[k],
    {
        proof {
            lemma_keyed_map(self.entries@);
        }
        let mut v: Vec<&MountPoint> = Vec::new();
        let mut i: usize = 0;
        while i < self.entries.len()
            invariant
                self.wf(),
                i <= self.entries@.len(),
                v@.len() == i,
                forall|j: int| 0 <= j < i ==> *v@[j] == self.entries@[j].value,
            decreases self.entries@.len() - i,
        {
            v.push(&self.entries[i].value);
            i = i + 1;
        }
        proof {
            assert forall|i: int| 0 <= i < v@.len() implies self@.dom().contains(path_components(v@[i].virtual_path@))
                && *v@[i] == self@[path_components(#[trigger] v@[i].virtual_path@)] by {
                assert(key_of(self.entries@[i]) == path_components(self.entries@[i].value.virtual_path@));
                assert(self@[key_of(self.entries@[i])] == self.entries@[i].value);
            }
            assert forall|k: Seq<Seq<char>>| #[trigger] self@.dom().contains(k) implies exists|i: int| 0 <= i < v@.len() && *v@[i] == self@[k] by {
                let j = choose|j: int| 0 <= j < self.entries@.len() && key_of(self.entries@[j]) == k;
                assert(self@[key_of(self.entries@[j])] == self.entries@[j].value);
                assert(*v@[j] == self@[k]);
            }
        }
        v
    }

    /// The mount at exactly this path, if any.
    pub fn get_mount(&self, virtual_path: &str) -> (r: Option<&MountPoint>)
        requires
            self.wf(),
        ensures
            self@.dom().contains(path_components(virtual_path@)) ==> (r matches Some(m) && *m == self@[path_components(virtual_path@)]),
            !self@.dom().contains(path_components(virtual_path@)) ==> r is None,
    {
        let key = components(virtual_path);
        match find_key(&self.entries, &key) {
            Some(i) => {
                proof {
                    lemma_keyed_map(self.entries@);
                }
                Some(&self.entries[i].value)
            },
            None => None,
        }
    }
}

/// Two mount paths that both are longest covers of a path are the same path: the
/// mount chosen for a path does not depend on the order of the table.
pub proof fn lemma_best_mount_unique(m: Map<Seq<Seq<char>>, MountPoint>, p: Seq<Seq<char>>, k1: Seq<Seq<char>>, k2: Seq<Seq<char>>)
    requires
        is_best_mount(m, p, k1),
        is_best_mount(m, p, k2),
    ensures
        k1 == k2,
{
    assert(k1.len() == k2.len());
    assert(k1 =~= p.subrange(0, k1.len() as int));
    assert(k2 =~= p.subrange(0, k2.len() as int));
}

/// A longest cover is the one `best_key` names.
pub proof fn lemma_best_key(m: Map<Seq<Seq<char>>, MountPoint>, p: Seq<Seq<char>>, k: Seq<Seq<char>>)
    requires
        is_best_mount(m, p, k),
    ensures
        best_key(m, p) == k,
        is_best_mount(m, p, best_key(m, p)),
{
    lemma_best_mount_unique(m, p, k, best_key(m, p));
}

/// Every absolute path is covered: the root mount, which a well-formed table always
/// holds, is a prefix of it.
pub proof fn lemma_absolute_path_covered(t: &MountTable, p: Seq<char>)
    requires
        t.wf(),
        p.len() > 0,
        p[0] == '/',
    ensures
        has_cover(t@, path_components(p)),
{
    t.lemma_wf();
    let c = path_components(p);
    assert(c[0] == seq!['/']);
    assert(root_components().is_prefix_of(c)) by {
        assert(c.subrange(0, 1) =~= root_components());
    }
    assert(covers(root_components(), c));
}

/// A mount made at a new, non-root path is found again by its path, and unmounting
/// it gives back the table as it was.
pub proof fn lemma_mount_unmount(m: Map<Seq<Seq<char>>, MountPoint>, k: Seq<Seq<char>>, mp: MountPoint)
    requires
        !m.dom().contains(k),
    ensures
        m.insert(k, mp)[k] == mp,
        m.insert(k, mp).remove(k) == m,
{
    assert(m.insert(k, mp).remove(k) =~= m);
}

} // verus!
