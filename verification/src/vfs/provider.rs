//! The filesystem provider interface, implemented by each storage backend.

use vstd::prelude::*;

use crate::text::owned;
use crate::utils::error::{unsupported_operation, unsupported_text, VfsError, VfsResult};
use crate::vfs::capabilities::VfsOperation;
use crate::vfs::path::{components, comps_prefix, comps_view, path_components, rest_after, rest_of_path, root_components};

verus! {

/// File metadata.
#[derive(Debug, Clone)]
pub struct FileMetadata {
    /// File name.
    pub name: String,
    /// Full path.
    pub path: String,
    /// Is this a directory?
    pub is_dir: bool,
    /// File size in bytes.
    pub size: u64,
    /// Last modified timestamp (Unix epoch seconds).
    pub modified: u64,
    /// Last accessed timestamp (Unix epoch seconds).
    pub accessed: u64,
    /// Is the file readable?
    pub readable: bool,
    /// Is the file writable?
    pub writable: bool,
    /// MIME type (if known).
    pub mime_type: Option<String>,
}

/// `m` describes a readable, writable entry `name` at `path` with no timestamps and
/// no MIME type.
pub open spec fn is_plain_metadata(m: FileMetadata, name: Seq<char>, path: Seq<char>) -> bool {
    &&& m.name@ == name
    &&& m.path@ == path
    &&& m.modified == 0
    &&& m.accessed == 0
    &&& m.readable
    &&& m.writable
    &&& m.mime_type is None
}

/// Two metadata records hold the same values.
pub open spec fn same_metadata(a: FileMetadata, b: FileMetadata) -> bool {
    &&& a.name@ == b.name@
    &&& a.path@ == b.path@
    &&& a.is_dir == b.is_dir
    &&& a.size == b.size
    &&& a.modified == b.modified
    &&& a.accessed == b.accessed
    &&& a.readable == b.readable
    &&& a.writable == b.writable
    &&& match (a.mime_type, b.mime_type) {
        (Some(x), Some(y)) => x@ == y@,
        (None, None) => true,
        _ => false,
    }
}

impl FileMetadata {
    /// A copy of this record.
    pub fn duplicate(&self) -> (m: Self)
        ensures
            same_metadata(m, *self),
    {
        FileMetadata {
            name: owned(self.name.as_str()),
            path: owned(self.path.as_str()),
            is_dir: self.is_dir,
            size: self.size,
            modified: self.modified,
            accessed: self.accessed,
            readable: self.readable,
            writable: self.writable,
            mime_type: match &self.mime_type {
                Some(t) => Some(owned(t.as_str())),
                None => None,
            },
        }
    }

    /// Metadata for a directory (size 0).
    pub fn directory(name: &str, path: &str) -> (m: Self)
        ensures
            is_plain_metadata(m, name@, path@),
            m.is_dir,
            m.size == 0,
    {
        FileMetadata {
            name: owned(name),
            path: owned(path),
            is_dir: true,
            size: 0,
            modified: 0,
            accessed: 0,
            readable: true,
            writable: true,
            mime_type: None,
        }
    }

    /// Metadata for a file of `size` bytes.
    pub fn file(name: &str, path: &str, size: u64) -> (m: Self)
        ensures
            is_plain_metadata(m, name@, path@),
            !m.is_dir,
            m.size == size,
    {
        FileMetadata {
            name: owned(name),
            path: owned(path),
            is_dir: false,
            size,
            modified: 0,
            accessed: 0,
            readable: true,
            writable: true,
            mime_type: None,
        }
    }
}

/// Directory entry for listing.
#[derive(Debug, Clone)]
pub struct DirEntry {
    /// Entry name.
    pub name: String,
    /// Is directory.
    pub is_dir: bool,
    /// Size (0 for directories).
    pub size: u64,
}

/// A storage backend: internal storage, SAF, ... Paths are relative to the
/// backend's mount.
///
/// Each operation's result is related to its arguments by a relation the backend
/// may define (`read_gives`, ...): what the backend may answer to that call. A
/// backend that does not define it allows any answer. The relation is the backend's
/// own; this library states what it hands each call and what it makes of the answer
/// in its terms.
pub trait FsProvider: Send + Sync {
    /// The backend may answer a read of `path` with `r`.
    open spec fn read_gives(&self, path: Seq<char>, r: VfsResult<Vec<u8>>) -> bool {
        true
    }

    /// The backend may answer writing `contents` to `path` with `r`.
    open spec fn write_gives(&self, path: Seq<char>, contents: Seq<u8>, r: VfsResult<()>) -> bool {
        true
    }

    /// The backend may answer a metadata request for `path` with `r`.
    open spec fn metadata_gives(&self, path: Seq<char>, r: VfsResult<FileMetadata>) -> bool {
        true
    }

    /// The backend may answer listing `path` with `r`.
    open spec fn list_dir_gives(&self, path: Seq<char>, r: VfsResult<Vec<DirEntry>>) -> bool {
        true
    }

    /// The backend may answer creating the directory `path` with `r`.
    open spec fn create_dir_gives(&self, path: Seq<char>, r: VfsResult<()>) -> bool {
        true
    }

    /// The backend may answer deleting `path` with `r`.
    open spec fn delete_gives(&self, path: Seq<char>, r: VfsResult<()>) -> bool {
        true
    }

    /// The backend may answer renaming `from` to `to` with `r`.
    open spec fn rename_gives(&self, from: Seq<char>, to: Seq<char>, r: VfsResult<()>) -> bool {
        true
    }

    /// The backend may answer setting the mode of `path` to `mode` with `r`.
    open spec fn chmod_gives(&self, path: Seq<char>, mode: u32, r: VfsResult<()>) -> bool {
        true
    }

    /// The backend may answer creating a link at `link` to `target` with `r`.
    open spec fn symlink_gives(&self, target: Seq<char>, link: Seq<char>, r: VfsResult<()>) -> bool {
        true
    }

    /// The backend may answer reading the link `path` with `r`.
    open spec fn readlink_gives(&self, path: Seq<char>, r: VfsResult<String>) -> bool {
        true
    }

    /// Reads a file's contents.
    fn read_file(&self, path: &str) -> (r: VfsResult<Vec<u8>>)
        ensures
            self.read_gives(path@, r),
    ;

    /// Writes a file's contents.
    fn write_file(&self, path: &str, contents: &[u8]) -> (r: VfsResult<()>)
        ensures
            self.write_gives(path@, contents@, r),
    ;

    /// A file's metadata.
    fn metadata(&self, path: &str) -> (r: VfsResult<FileMetadata>)
        ensures
            self.metadata_gives(path@, r),
    ;

    /// The entries of a directory.
    fn list_dir(&self, path: &str) -> (r: VfsResult<Vec<DirEntry>>)
        ensures
            self.list_dir_gives(path@, r),
    ;

    /// Creates a directory.
    fn create_dir(&self, path: &str) -> (r: VfsResult<()>)
        ensures
            self.create_dir_gives(path@, r),
    ;

    /// Deletes a file or an empty directory.
    fn delete(&self, path: &str) -> (r: VfsResult<()>)
        ensures
            self.delete_gives(path@, r),
    ;

    /// Renames or moves a file.
    fn rename(&self, from: &str, to: &str) -> (r: VfsResult<()>)
        ensures
            self.rename_gives(from@, to@, r),
    ;

    /// Whether the path exists.
    fn path_exists(&self, path: &str) -> bool;

    /// Whether the path is a directory.
    fn is_dir(&self, path: &str) -> bool;

    /// Changes file permissions. Only a backend on a real Unix filesystem supports
    /// this; the others answer with [`unsupported_operation`].
    fn chmod(&self, path: &str, mode: u32) -> (r: VfsResult<()>)
        ensures
            self.chmod_gives(path@, mode, r),
    ;

    /// Creates a symbolic link at `link` pointing to `target`; a backend without
    /// links answers with [`unsupported_operation`].
    fn symlink(&self, target: &str, link: &str) -> (r: VfsResult<()>)
        ensures
            self.symlink_gives(target@, link@, r),
    ;

    /// The target of a symbolic link; a backend without links answers with
    /// [`unsupported_operation`].
    fn readlink(&self, path: &str) -> (r: VfsResult<String>)
        ensures
            self.readlink_gives(path@, r),
    ;
}

/// `r` is the "operation not supported" error for `op` on `path`.
pub open spec fn is_unsupported<T>(r: VfsResult<T>, op: VfsOperation, path: Seq<char>) -> bool {
    r matches Err(VfsError::OperationNotSupported { operation, reason }) && operation == op && reason@
        == unsupported_text(op, path)
}

/// `PathBuf::join`: `part` when it is absolute, else `base` and `part` with one `/`
/// between them (none when `base` is empty or already ends with `/`).
pub open spec fn path_join(base: Seq<char>, part: Seq<char>) -> Seq<char> {
    if part.len() > 0 && part[0] == '/' {
        part
    } else if base.len() > 0 && base.last() != '/' {
        base + "/"@ + part
    } else {
        base + part
    }
}

/// `PathBuf::join`.
pub fn join_path(base: &str, part: &str) -> (r: String)
    ensures
        r@ == path_join(base@, part@),
{
    let pn = part.unicode_len();
    if pn > 0 && part.get_char(0) == '/' {
        return owned(part);
    }
    let bn = base.unicode_len();
    let mut r = owned(base);
    if bn > 0 && base.get_char(bn - 1) != '/' {
        r.append("/");
    }
    r.append(part);
    r
}

/// Where a path lands under the internal storage root `base`: a path that is already
/// absolute and inside `base` stays as it is; otherwise a leading root is dropped and
/// the rest is joined under `base`, so virtual-absolute and relative paths both stay
/// inside the provider's root.
pub open spec fn internal_target(base: Seq<char>, path: Seq<char>) -> Seq<char> {
    let rel = if root_components().is_prefix_of(path_components(path)) {
        rest_after(path, 1)
    } else {
        path
    };
    if path.len() > 0 && path[0] == '/' && path_components(base).is_prefix_of(path_components(path)) {
        path
    } else {
        path_join(base, rel)
    }
}

/// Internal storage provider: direct filesystem access under a base directory. The
/// file operations themselves are performed by the host application; this type
/// decides which real path each request touches.
pub struct InternalProvider {
    base_path: String,
}

impl InternalProvider {
    /// A provider rooted at `base_path`.
    pub fn new(base_path: &str) -> (p: Self)
        ensures
            p.base()@ == base_path@,
    {
        InternalProvider { base_path: owned(base_path) }
    }

    /// The base directory.
    pub closed spec fn base(&self) -> String {
        self.base_path
    }

    /// The base directory.
    pub fn base_path(&self) -> (s: &str)
        ensures
            s@ == self.base()@,
    {
        self.base_path.as_str()
    }

    /// The real path for a provider-relative path.
    pub fn resolve_path(&self, path: &str) -> (r: String)
        ensures
            r@ == internal_target(self.base()@, path@),
    {
        let pc = components(path);
        let bc = components(self.base_path.as_str());
        let n = path.unicode_len();
        if n > 0 && path.get_char(0) == '/' && comps_prefix(&bc, &pc) {
            return owned(path);
        }
        let mut root: Vec<Vec<char>> = Vec::new();
        let mut slash: Vec<char> = Vec::new();
        slash.push('/');
        root.push(slash);
        proof {
            assert(comps_view(root@) =~= root_components());
        }
        let rel = if comps_prefix(&root, &pc) {
            rest_of_path(path, 1)
        } else {
            owned(path)
        };
        join_path(self.base_path.as_str(), rel.as_str())
    }
}

/// iOS file provider; not implemented yet, so every operation is refused.
pub struct IosProvider {
    /// Base URL for this provider.
    base_url: String,
}

/// The reason every iOS provider operation gives.
pub open spec fn ios_unimplemented() -> Seq<char> {
    "iOS provider not implemented"@
}

impl IosProvider {
    /// A provider for `base_url`.
    pub fn new(base_url: String) -> (p: Self)
        ensures
            p.url() == base_url,
    {
        IosProvider { base_url }
    }

    /// The base URL.
    pub closed spec fn url(&self) -> String {
        self.base_url
    }
}

/// The error every iOS provider read-side operation gives.
pub open spec fn ios_not_found<T>(r: VfsResult<T>) -> bool {
    r matches Err(VfsError::NotFound(m)) && m@ == ios_unimplemented()
}

/// The error every iOS provider write-side operation gives.
pub open spec fn ios_denied<T>(r: VfsResult<T>) -> bool {
    r matches Err(VfsError::PermissionDenied(m)) && m@ == ios_unimplemented()
}

impl FsProvider for IosProvider {
    open spec fn read_gives(&self, path: Seq<char>, r: VfsResult<Vec<u8>>) -> bool {
        ios_not_found(r)
    }

    open spec fn write_gives(&self, path: Seq<char>, contents: Seq<u8>, r: VfsResult<()>) -> bool {
        ios_denied(r)
    }

    open spec fn metadata_gives(&self, path: Seq<char>, r: VfsResult<FileMetadata>) -> bool {
        ios_not_found(r)
    }

    open spec fn list_dir_gives(&self, path: Seq<char>, r: VfsResult<Vec<DirEntry>>) -> bool {
        ios_not_found(r)
    }

    open spec fn create_dir_gives(&self, path: Seq<char>, r: VfsResult<()>) -> bool {
        ios_denied(r)
    }

    open spec fn delete_gives(&self, path: Seq<char>, r: VfsResult<()>) -> bool {
        ios_denied(r)
    }

    open spec fn rename_gives(&self, from: Seq<char>, to: Seq<char>, r: VfsResult<()>) -> bool {
        ios_denied(r)
    }

    open spec fn chmod_gives(&self, path: Seq<char>, mode: u32, r: VfsResult<()>) -> bool {
        is_unsupported(r, VfsOperation::Chmod, path)
    }

    open spec fn symlink_gives(&self, target: Seq<char>, link: Seq<char>, r: VfsResult<()>) -> bool {
        is_unsupported(r, VfsOperation::Symlink, link)
    }

    open spec fn readlink_gives(&self, path: Seq<char>, r: VfsResult<String>) -> bool {
        is_unsupported(r, VfsOperation::Symlink, path)
    }

    fn read_file(&self, path: &str) -> (r: VfsResult<Vec<u8>>) {
        Err(VfsError::NotFound(owned("iOS provider not implemented")))
    }

    fn write_file(&self, path: &str, contents: &[u8]) -> (r: VfsResult<()>) {
        Err(VfsError::PermissionDenied(owned("iOS provider not implemented")))
    }

    fn metadata(&self, path: &str) -> (r: VfsResult<FileMetadata>) {
        Err(VfsError::NotFound(owned("iOS provider not implemented")))
    }

    fn list_dir(&self, path: &str) -> (r: VfsResult<Vec<DirEntry>>) {
        Err(VfsError::NotFound(owned("iOS provider not implemented")))
    }

    fn create_dir(&self, path: &str) -> (r: VfsResult<()>) {
        Err(VfsError::PermissionDenied(owned("iOS provider not implemented")))
    }

    fn delete(&self, path: &str) -> (r: VfsResult<()>) {
        Err(VfsError::PermissionDenied(owned("iOS provider not implemented")))
    }

    fn rename(&self, from: &str, to: &str) -> (r: VfsResult<()>) {
        Err(VfsError::PermissionDenied(owned("iOS provider not implemented")))
    }

    fn path_exists(&self, path: &str) -> (r: bool)
        ensures
            !r,
    {
        false
    }

    fn is_dir(&self, path: &str) -> (r: bool)
        ensures
            !r,
    {
        false
    }

    fn chmod(&self, path: &str, mode: u32) -> (r: VfsResult<()>) {
        Err(unsupported_operation(VfsOperation::Chmod, path))
    }

    fn symlink(&self, target: &str, link: &str) -> (r: VfsResult<()>) {
        Err(unsupported_operation(VfsOperation::Symlink, link))
    }

    fn readlink(&self, path: &str) -> (r: VfsResult<String>) {
        Err(unsupported_operation(VfsOperation::Symlink, path))
    }
}

} // verus!
