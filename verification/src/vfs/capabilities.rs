//! The capability system: which filesystem operations a storage location supports,
//! and the user-facing explanation when one is not.

use vstd::prelude::*;

use crate::text::{
    str_equals, str_to_lowercase, to_lowercase,
    concat2, concat3, contains, join, join_strings, owned, starts_with, str_contains,
    str_starts_with,
};

verus! {

/// Filesystem operations that may or may not be supported depending on the path.
#[derive(Clone, Copy, PartialEq, Eq, Structural, Debug, Hash)]
pub enum VfsOperation {
    Read,
    Write,
    Create,
    Delete,
    Rename,
    Chmod,
    Chown,
    Symlink,
    Hardlink,
    ListDir,
    Mkdir,
    Stat,
    SetTimestamp,
    Watch,
    AtomicRename,
    Mmap,
    Lock,
    Xattr,
}

/// The position of an operation in declaration order (its wire code).
pub open spec fn op_index(op: VfsOperation) -> nat {
    match op {
        VfsOperation::Read => 0,
        VfsOperation::Write => 1,
        VfsOperation::Create => 2,
        VfsOperation::Delete => 3,
        VfsOperation::Rename => 4,
        VfsOperation::Chmod => 5,
        VfsOperation::Chown => 6,
        VfsOperation::Symlink => 7,
        VfsOperation::Hardlink => 8,
        VfsOperation::ListDir => 9,
        VfsOperation::Mkdir => 10,
        VfsOperation::Stat => 11,
        VfsOperation::SetTimestamp => 12,
        VfsOperation::Watch => 13,
        VfsOperation::AtomicRename => 14,
        VfsOperation::Mmap => 15,
        VfsOperation::Lock => 16,
        VfsOperation::Xattr => 17,
    }
}

/// The variant name, as `Debug` prints it.
pub open spec fn op_name(op: VfsOperation) -> Seq<char> {
    match op {
        VfsOperation::Read => "Read"@,
        VfsOperation::Write => "Write"@,
        VfsOperation::Create => "Create"@,
        VfsOperation::Delete => "Delete"@,
        VfsOperation::Rename => "Rename"@,
        VfsOperation::Chmod => "Chmod"@,
        VfsOperation::Chown => "Chown"@,
        VfsOperation::Symlink => "Symlink"@,
        VfsOperation::Hardlink => "Hardlink"@,
        VfsOperation::ListDir => "ListDir"@,
        VfsOperation::Mkdir => "Mkdir"@,
        VfsOperation::Stat => "Stat"@,
        VfsOperation::SetTimestamp => "SetTimestamp"@,
        VfsOperation::Watch => "Watch"@,
        VfsOperation::AtomicRename => "AtomicRename"@,
        VfsOperation::Mmap => "Mmap"@,
        VfsOperation::Lock => "Lock"@,
        VfsOperation::Xattr => "Xattr"@,
    }
}

/// Distinct operations have distinct codes.
pub proof fn lemma_op_index_injective(a: VfsOperation, b: VfsOperation)
    ensures
        op_index(a) == op_index(b) ==> a == b,
        op_index(a) < 18,
{
}

impl VfsOperation {
    /// The operation's code (its position in declaration order).
    pub fn index(&self) -> (i: u8)
        ensures
            i == op_index(*self),
    {
        match self {
            VfsOperation::Read => 0,
            VfsOperation::Write => 1,
            VfsOperation::Create => 2,
            VfsOperation::Delete => 3,
            VfsOperation::Rename => 4,
            VfsOperation::Chmod => 5,
            VfsOperation::Chown => 6,
            VfsOperation::Symlink => 7,
            VfsOperation::Hardlink => 8,
            VfsOperation::ListDir => 9,
            VfsOperation::Mkdir => 10,
            VfsOperation::Stat => 11,
            VfsOperation::SetTimestamp => 12,
            VfsOperation::Watch => 13,
            VfsOperation::AtomicRename => 14,
            VfsOperation::Mmap => 15,
            VfsOperation::Lock => 16,
            VfsOperation::Xattr => 17,
        }
    }

    /// The variant name.
    pub fn name(&self) -> (s: &'static str)
        ensures
            s@ == op_name(*self),
    {
        match self {
            VfsOperation::Read => "Read",
            VfsOperation::Write => "Write",
            VfsOperation::Create => "Create",
            VfsOperation::Delete => "Delete",
            VfsOperation::Rename => "Rename",
            VfsOperation::Chmod => "Chmod",
            VfsOperation::Chown => "Chown",
            VfsOperation::Symlink => "Symlink",
            VfsOperation::Hardlink => "Hardlink",
            VfsOperation::ListDir => "ListDir",
            VfsOperation::Mkdir => "Mkdir",
            VfsOperation::Stat => "Stat",
            VfsOperation::SetTimestamp => "SetTimestamp",
            VfsOperation::Watch => "Watch",
            VfsOperation::AtomicRename => "AtomicRename",
            VfsOperation::Mmap => "Mmap",
            VfsOperation::Lock => "Lock",
            VfsOperation::Xattr => "Xattr",
        }
    }

    /// The operation for a code received over JNI; only the codes of Read through
    /// Mkdir (0..=10) are accepted.
    pub fn from_code(code: i32) -> (op: Option<VfsOperation>)
        ensures
            0 <= code <= 10 ==> (op matches Some(o) && op_index(o) == code),
            !(0 <= code <= 10) ==> op is None,
    {
        match code {
            0 => Some(VfsOperation::Read),
            1 => Some(VfsOperation::Write),
            2 => Some(VfsOperation::Create),
            3 => Some(VfsOperation::Delete),
            4 => Some(VfsOperation::Rename),
            5 => Some(VfsOperation::Chmod),
            6 => Some(VfsOperation::Chown),
            7 => Some(VfsOperation::Symlink),
            8 => Some(VfsOperation::Hardlink),
            9 => Some(VfsOperation::ListDir),
            10 => Some(VfsOperation::Mkdir),
            _ => None,
        }
    }
}

/// Every operation, in declaration order.
pub fn all_operations() -> (ops: Vec<VfsOperation>)
    ensures
        ops@.len() == 18,
        forall|i: int| 0 <= i < 18 ==> op_index(#[trigger] ops@[i]) == i,
{
    vec![
        VfsOperation::Read,
        VfsOperation::Write,
        VfsOperation::Create,
        VfsOperation::Delete,
        VfsOperation::Rename,
        VfsOperation::Chmod,
        VfsOperation::Chown,
        VfsOperation::Symlink,
        VfsOperation::Hardlink,
        VfsOperation::ListDir,
        VfsOperation::Mkdir,
        VfsOperation::Stat,
        VfsOperation::SetTimestamp,
        VfsOperation::Watch,
        VfsOperation::AtomicRename,
        VfsOperation::Mmap,
        VfsOperation::Lock,
        VfsOperation::Xattr,
    ]
}

/// A set of operations, one bit per operation code.
#[derive(Clone, Copy, PartialEq, Eq, Structural, Debug)]
pub struct OperationSet {
    bits: u32,
}

impl View for OperationSet {
    type V = Set<VfsOperation>;

    closed spec fn view(&self) -> Set<VfsOperation> {
        Set::new(|op: VfsOperation| (self.bits >> (op_index(op) as u32)) & 1u32 == 1u32)
    }
}

impl OperationSet {
    /// The empty set.
    pub fn new() -> (s: Self)
        ensures
            s@ == Set::<VfsOperation>::empty(),
    {
        let s = OperationSet { bits: 0 };
        assert forall|op: VfsOperation| !s@.contains(op) by {
            let i = op_index(op) as u32;
            assert((0u32 >> i) & 1u32 != 1u32) by (bit_vector);
        }
        assert(s@ =~= Set::<VfsOperation>::empty());
        s
    }

    /// Adds an operation.
    pub fn insert(&mut self, op: VfsOperation)
        ensures
            final(self)@ == old(self)@.insert(op),
    {
        let ghost b0 = self.bits;
        let i = op.index() as u32;
        self.bits = self.bits | (1u32 << i);
        assert forall|o: VfsOperation| #[trigger] final_contains(self.bits, o) == (old(self)@.contains(o) || o == op) by {
            let j = op_index(o) as u32;
            let b = self.bits;
            assert(i < 18 && j < 18);
            assert(b == b0 | (1u32 << i) ==> (((b >> j) & 1u32 == 1u32) == (((b0 >> j) & 1u32 == 1u32) || i == j))) by (bit_vector)
                requires i < 18, j < 18;
            lemma_op_index_injective(o, op);
        }
        assert(self@ =~= old(self)@.insert(op)) by {
            assert forall|o: VfsOperation| self@.contains(o) == old(self)@.insert(op).contains(o) by {
                assert(final_contains(self.bits, o) == (old(self)@.contains(o) || o == op));
            }
        }
    }

    /// Whether the set holds `op`.
    pub fn contains(&self, op: VfsOperation) -> (r: bool)
        ensures
            r == self@.contains(op),
    {
        (self.bits >> (op.index() as u32)) & 1u32 == 1u32
    }
}

spec fn final_contains(bits: u32, op: VfsOperation) -> bool {
    (bits >> (op_index(op) as u32)) & 1u32 == 1u32
}

/// A set of operations built from a list.
fn set_of(ops: &[VfsOperation]) -> (s: OperationSet)
    ensures
        forall|op: VfsOperation| s@.contains(op) <==> exists|k: int| 0 <= k < ops@.len() && #[trigger] ops@[k] == op,
{
    let mut s = OperationSet::new();
    let mut i: usize = 0;
    while i < ops.len()
        invariant
            i <= ops@.len(),
            forall|op: VfsOperation| s@.contains(op) <==> exists|k: int| 0 <= k < i && #[trigger] ops@[k] == op,
        decreases ops@.len() - i,
    {
        s.insert(ops[i]);
        assert forall|op: VfsOperation| s@.contains(op) <==> exists|k: int| 0 <= k < i + 1 && #[trigger] ops@[k] == op by {
            if op == ops@[i as int] {
                assert(ops@[i as int] == op);
            }
        }
        i = i + 1;
    }
    s
}

/// Types of filesystems we interact with.
#[derive(Clone, Copy, PartialEq, Eq, Structural, Debug)]
pub enum FsType {
    /// App's internal storage (full Unix semantics).
    Internal,
    /// SAF-backed external storage (limited).
    SafExternal,
    /// FAT32/exFAT external storage (very limited).
    FatExternal,
    /// Unknown filesystem type.
    Unknown,
}

impl FsType {
    /// Human-readable name for UI display.
    pub fn display_name(&self) -> (s: &'static str)
        ensures
            s@ == match *self {
                FsType::Internal => "Internal Storage"@,
                FsType::SafExternal => "External Storage (SAF)"@,
                FsType::FatExternal => "External Storage (FAT)"@,
                FsType::Unknown => "Unknown Storage"@,
            },
    {
        match self {
            FsType::Internal => "Internal Storage",
            FsType::SafExternal => "External Storage (SAF)",
            FsType::FatExternal => "External Storage (FAT)",
            FsType::Unknown => "Unknown Storage",
        }
    }
}

/// The operations external (SAF or FAT) storage supports: plain file and directory
/// work, and rename (not atomic).
pub open spec fn external_op(op: VfsOperation) -> bool {
    match op {
        VfsOperation::Read | VfsOperation::Write | VfsOperation::Create | VfsOperation::Delete
        | VfsOperation::Rename | VfsOperation::ListDir | VfsOperation::Mkdir | VfsOperation::Stat => true,
        _ => false,
    }
}

/// Capabilities of a filesystem at a specific path.
#[derive(Clone, Copy, Debug)]
pub struct VfsCapabilities {
    /// Set of supported operations.
    pub supported: OperationSet,
    /// Is this a SAF-backed path?
    pub is_saf: bool,
    /// Human-readable filesystem type.
    pub fs_type: FsType,
    /// Maximum filename length.
    pub max_filename_len: usize,
    /// Maximum path length.
    pub max_path_len: usize,
    /// Is the filesystem read-only?
    pub read_only: bool,
    /// Does the filesystem preserve case?
    pub case_sensitive: bool,
}

/// The capabilities of internal storage: every operation.
pub open spec fn is_internal_caps(c: VfsCapabilities) -> bool {
    &&& forall|op: VfsOperation| c.supported@.contains(op)
    &&& !c.is_saf
    &&& c.fs_type == FsType::Internal
    &&& c.max_filename_len == 255
    &&& c.max_path_len == 4096
    &&& !c.read_only
    &&& c.case_sensitive
}

/// The capabilities of SAF external storage.
pub open spec fn is_saf_caps(c: VfsCapabilities) -> bool {
    &&& forall|op: VfsOperation| c.supported@.contains(op) <==> external_op(op)
    &&& c.is_saf
    &&& c.fs_type == FsType::SafExternal
    &&& c.max_filename_len == 255
    &&& c.max_path_len == 4096
    &&& !c.read_only
    &&& !c.case_sensitive
}

/// The capabilities of FAT external storage (reached through SAF).
pub open spec fn is_fat_caps(c: VfsCapabilities) -> bool {
    &&& forall|op: VfsOperation| c.supported@.contains(op) <==> external_op(op)
    &&& c.is_saf
    &&& c.fs_type == FsType::FatExternal
    &&& c.max_filename_len == 255
    &&& c.max_path_len == 260
    &&& !c.read_only
    &&& !c.case_sensitive
}

/// The warnings shown for a SAF location, in order: one per missing capability among
/// chmod, symlink, atomic rename and watch.
pub open spec fn warning_items(c: VfsCapabilities) -> Seq<Seq<char>> {
    let a = if !c.supported@.contains(VfsOperation::Chmod) {
        seq!["chmod does not work (permissions cannot be changed)"@]
    } else {
        Seq::empty()
    };
    let b = if !c.supported@.contains(VfsOperation::Symlink) {
        seq!["symlinks are not supported (npm/yarn/venv may fail)"@]
    } else {
        Seq::empty()
    };
    let d = if !c.supported@.contains(VfsOperation::AtomicRename) {
        seq!["atomic renames not guaranteed (file operations may conflict)"@]
    } else {
        Seq::empty()
    };
    let e = if !c.supported@.contains(VfsOperation::Watch) {
        seq!["file watching not supported (live reload may not work)"@]
    } else {
        Seq::empty()
    };
    a + b + d + e
}

pub open spec fn warning_text(c: VfsCapabilities) -> Option<Seq<char>> {
    if !c.is_saf || warning_items(c).len() == 0 {
        None
    } else {
        Some("⚠️ External Storage Limitations:\n• "@ + join(warning_items(c), "\n• "@))
    }
}

impl VfsCapabilities {
    /// Capabilities for internal storage (full Unix support).
    pub fn internal_storage() -> (c: Self)
        ensures
            is_internal_caps(c),
    {
        let ops = all_operations();
        let supported = set_of(ops.as_slice());
        assert forall|op: VfsOperation| supported@.contains(op) by {
            assert(ops@[op_index(op) as int] == op) by {
                lemma_op_index_injective(ops@[op_index(op) as int], op);
            }
        }
        VfsCapabilities {
            supported,
            is_saf: false,
            fs_type: FsType::Internal,
            max_filename_len: 255,
            max_path_len: 4096,
            read_only: false,
            case_sensitive: true,
        }
    }

    fn external_ops() -> (s: OperationSet)
        ensures
            forall|op: VfsOperation| s@.contains(op) <==> external_op(op),
    {
        let ops = [
            VfsOperation::Read,
            VfsOperation::Write,
            VfsOperation::Create,
            VfsOperation::Delete,
            VfsOperation::ListDir,
            VfsOperation::Mkdir,
            VfsOperation::Stat,
            VfsOperation::Rename,
        ];
        let s = set_of(&ops);
        assert forall|op: VfsOperation| s@.contains(op) <==> external_op(op) by {
            if external_op(op) {
                match op {
                    VfsOperation::Read => assert(ops@[0] == op),
                    VfsOperation::Write => assert(ops@[1] == op),
                    VfsOperation::Create => assert(ops@[2] == op),
                    VfsOperation::Delete => assert(ops@[3] == op),
                    VfsOperation::ListDir => assert(ops@[4] == op),
                    VfsOperation::Mkdir => assert(ops@[5] == op),
                    VfsOperation::Stat => assert(ops@[6] == op),
                    VfsOperation::Rename => assert(ops@[7] == op),
                    _ => {},
                }
            }
        }
        s
    }

    /// Capabilities for SAF external storage (limited Unix support).
    pub fn saf_external() -> (c: Self)
        ensures
            is_saf_caps(c),
    {
        VfsCapabilities {
            supported: Self::external_ops(),
            is_saf: true,
            fs_type: FsType::SafExternal,
            max_filename_len: 255,
            max_path_len: 4096,
            read_only: false,
            case_sensitive: false,
        }
    }

    /// Capabilities for FAT32/exFAT external storage.
    pub fn fat_external() -> (c: Self)
        ensures
            is_fat_caps(c),
    {
        VfsCapabilities {
            supported: Self::external_ops(),
            is_saf: true,
            fs_type: FsType::FatExternal,
            max_filename_len: 255,
            max_path_len: 260,
            read_only: false,
            case_sensitive: false,
        }
    }

    /// Whether `op` is supported.
    pub fn supports(&self, op: VfsOperation) -> (r: bool)
        ensures
            r == self.supported@.contains(op),
    {
        self.supported.contains(op)
    }

    /// The unsupported operations, in declaration order.
    pub fn unsupported_operations(&self) -> (ops: Vec<VfsOperation>)
        ensures
            forall|op: VfsOperation| ops@.contains(op) <==> !self.supported@.contains(op),
            forall|i: int, j: int| 0 <= i < j < ops@.len() ==> op_index(ops@[i]) < op_index(ops@[j]),
    {
        let all = all_operations();
        let mut out: Vec<VfsOperation> = Vec::new();
        let mut i: usize = 0;
        while i < all.len()
            invariant
                all@.len() == 18,
                forall|k: int| 0 <= k < 18 ==> op_index(#[trigger] all@[k]) == k,
                i <= 18,
                forall|op: VfsOperation| out@.contains(op) <==> (!self.supported@.contains(op) && op_index(op) < i),
                forall|a: int, b: int| 0 <= a < b < out@.len() ==> op_index(out@[a]) < op_index(out@[b]),
                forall|a: int| 0 <= a < out@.len() ==> op_index(#[trigger] out@[a]) < i,
            decreases 18 - i,
        {
            let op = all[i];
            assert(op_index(op) == i);
            let ghost prev = out@;
            if !self.supported.contains(op) {
                out.push(op);
                assert(out@ == prev.push(op));
                assert forall|o: VfsOperation| out@.contains(o) <==> (!self.supported@.contains(o) && op_index(o) < i + 1) by {
                    lemma_op_index_injective(o, op);
                    if out@.contains(o) {
                        let k = choose|k: int| 0 <= k < out@.len() && out@[k] == o;
                        if k < prev.len() {
                            assert(prev[k] == o);
                            assert(prev.contains(o));
                        } else {
                            assert(out@[k] == op);
                        }
                    }
                    if !self.supported@.contains(o) && op_index(o) < i + 1 {
                        if op_index(o) < i {
                            assert(prev.contains(o));
                            let k = choose|k: int| 0 <= k < prev.len() && prev[k] == o;
                            assert(out@[k] == o);
                        } else {
                            assert(o == op);
                            assert(out@[prev.len() as int] == o);
                        }
                    }
                }
            } else {
                assert forall|o: VfsOperation| out@.contains(o) <==> (!self.supported@.contains(o) && op_index(o) < i + 1) by {
                    lemma_op_index_injective(o, op);
                    if op_index(o) == i {
                        assert(o == op);
                    }
                }
            }
            i = i + 1;
        }
        assert forall|op: VfsOperation| out@.contains(op) <==> !self.supported@.contains(op) by {
            lemma_op_index_injective(op, op);
        }
        out
    }

    /// A warning for the UI listing what does not work here, for SAF locations with
    /// at least one of chmod, symlink, atomic rename or watch missing.
    pub fn limitation_warning(&self) -> (w: Option<String>)
        ensures
            w matches Some(s) ==> warning_text(*self) == Some(s@),
            w is None ==> warning_text(*self) is None,
    {
        if !self.is_saf {
            return None;
        }
        let mut warnings: Vec<String> = Vec::new();
        if !self.supports(VfsOperation::Chmod) {
            warnings.push(owned("chmod does not work (permissions cannot be changed)"));
        }
        let ghost w1 = Seq::new(warnings@.len(), |i: int| warnings@[i]@);
        if !self.supports(VfsOperation::Symlink) {
            warnings.push(owned("symlinks are not supported (npm/yarn/venv may fail)"));
        }
        let ghost w2 = Seq::new(warnings@.len(), |i: int| warnings@[i]@);
        if !self.supports(VfsOperation::AtomicRename) {
            warnings.push(owned("atomic renames not guaranteed (file operations may conflict)"));
        }
        let ghost w3 = Seq::new(warnings@.len(), |i: int| warnings@[i]@);
        if !self.supports(VfsOperation::Watch) {
            warnings.push(owned("file watching not supported (live reload may not work)"));
        }
        let ghost w4 = Seq::new(warnings@.len(), |i: int| warnings@[i]@);
        assert(w4 =~= warning_items(*self));
        if warnings.len() == 0 {
            None
        } else {
            let body = join_strings(&warnings, "\n• ");
            Some(concat2("⚠️ External Storage Limitations:\n• ", body.as_str()))
        }
    }
}

/// Result of checking an operation.
#[derive(Debug)]
pub enum OperationCheck {
    /// Operation is supported.
    Supported,
    /// Operation is not supported; includes the reason.
    NotSupported { operation: VfsOperation, reason: String },
    /// Operation works with a caveat.
    PartialSupport { operation: VfsOperation, caveat: String },
}

/// Why an operation is not available.
pub open spec fn unsupported_reason(op: VfsOperation) -> Seq<char> {
    match op {
        VfsOperation::Chmod => "chmod is not supported on external storage. File permissions cannot be changed via SAF."@,
        VfsOperation::Chown => "chown is not supported on external storage."@,
        VfsOperation::Symlink => "Symbolic links are not supported on external storage. This will break npm, yarn, and Python venv."@,
        VfsOperation::Hardlink => "Hard links are not supported on external storage."@,
        VfsOperation::Watch => "File watching (inotify) is not supported on external storage. Live reload and file watchers will not work."@,
        VfsOperation::AtomicRename => "Atomic renames are not guaranteed on external storage. Concurrent file operations may cause data corruption."@,
        VfsOperation::Mmap => "Memory-mapped files are not supported on external storage."@,
        VfsOperation::Lock => "File locking is not supported on external storage."@,
        VfsOperation::Xattr => "Extended attributes are not supported on external storage."@,
        _ => "This operation is not supported on the current filesystem."@,
    }
}

/// The caveat attached to a rename on SAF storage.
pub open spec fn rename_caveat() -> Seq<char> {
    "Rename is not atomic on external storage. Files may be in inconsistent state if interrupted."@
}

/// The outcome of `check_operation`: unsupported (with the reason and the path),
/// rename on SAF (with the non-atomic caveat), or supported.
pub open spec fn check_result(path: Seq<char>, op: VfsOperation, caps: VfsCapabilities, r: OperationCheck) -> bool {
    if !caps.supported@.contains(op) {
        r matches OperationCheck::NotSupported { operation, reason } && operation == op && reason@
            == unsupported_reason(op) + "\nPath: "@ + path
    } else if caps.is_saf && op == VfsOperation::Rename {
        r matches OperationCheck::PartialSupport { operation, caveat } && operation == op && caveat@
            == rename_caveat()
    } else {
        r is Supported
    }
}

fn reason_text(op: VfsOperation) -> (s: &'static str)
    ensures
        s@ == unsupported_reason(op),
{
    match op {
        VfsOperation::Chmod => "chmod is not supported on external storage. File permissions cannot be changed via SAF.",
        VfsOperation::Chown => "chown is not supported on external storage.",
        VfsOperation::Symlink => "Symbolic links are not supported on external storage. This will break npm, yarn, and Python venv.",
        VfsOperation::Hardlink => "Hard links are not supported on external storage.",
        VfsOperation::Watch => "File watching (inotify) is not supported on external storage. Live reload and file watchers will not work.",
        VfsOperation::AtomicRename => "Atomic renames are not guaranteed on external storage. Concurrent file operations may cause data corruption.",
        VfsOperation::Mmap => "Memory-mapped files are not supported on external storage.",
        VfsOperation::Lock => "File locking is not supported on external storage.",
        VfsOperation::Xattr => "Extended attributes are not supported on external storage.",
        _ => "This operation is not supported on the current filesystem.",
    }
}

/// Checks whether an operation is safe to perform on a path with these capabilities.
pub fn check_operation(path: &str, op: VfsOperation, caps: &VfsCapabilities) -> (r: OperationCheck)
    ensures
        check_result(path@, op, *caps, r),
{
    if caps.supports(op) {
        if caps.is_saf && op == VfsOperation::Rename {
            return OperationCheck::PartialSupport {
                operation: op,
                caveat: owned(
                    "Rename is not atomic on external storage. Files may be in inconsistent state if interrupted.",
                ),
            };
        }
        OperationCheck::Supported
    } else {
        OperationCheck::NotSupported { operation: op, reason: concat3(reason_text(op), "\nPath: ", path) }
    }
}

/// Whether a path is in the app's own storage: under `/data/` (which includes
/// `/data/data/`), or containing a `/files/` or `/cache/` directory.
pub open spec fn is_internal_path(p: Seq<char>) -> bool {
    starts_with(p, "/data/"@) || starts_with(p, "/data/data/"@) || contains(p, "/files/"@) || contains(
        p,
        "/cache/"@,
    )
}

/// The capabilities assumed for a path: internal storage for the app's own paths,
/// SAF limitations for everything else (including `/mnt/` and `/storage/`).
pub fn get_capabilities_for_path(path: &str) -> (c: VfsCapabilities)
    ensures
        is_internal_path(path@) ==> is_internal_caps(c),
        !is_internal_path(path@) ==> is_saf_caps(c),
{
    if str_starts_with(path, "/data/") || str_starts_with(path, "/data/data/") || str_contains(path, "/files/")
        || str_contains(path, "/cache/") {
        return VfsCapabilities::internal_storage();
    }
    if str_starts_with(path, "/mnt/") || str_starts_with(path, "/storage/") {
        return VfsCapabilities::saf_external();
    }
    VfsCapabilities::saf_external()
}

} // verus!

verus! {

/// The tool families with known behaviour on SAF storage.
#[derive(Clone, Copy, PartialEq, Eq, Structural, Debug)]
pub enum ToolKind {
    Git,
    Node,
    Python,
    Make,
    Archive,
    Rsync,
    Other,
}

/// The family of a (lowercased) tool name.
pub open spec fn tool_kind(lower: Seq<char>) -> ToolKind {
    if lower == "git"@ {
        ToolKind::Git
    } else if lower == "npm"@ || lower == "yarn"@ || lower == "pnpm"@ {
        ToolKind::Node
    } else if lower == "python"@ || lower == "pip"@ {
        ToolKind::Python
    } else if lower == "make"@ || lower == "cmake"@ {
        ToolKind::Make
    } else if lower == "tar"@ || lower == "zip"@ {
        ToolKind::Archive
    } else if lower == "rsync"@ {
        ToolKind::Rsync
    } else {
        ToolKind::Other
    }
}

pub open spec fn tool_issues(k: ToolKind) -> Seq<Seq<char>> {
    match k {
        ToolKind::Git => seq![
            "Rename detection may be unreliable"@,
            "Performance is slower due to SAF overhead"@,
            "Permissions are not preserved in clones"@,
        ],
        ToolKind::Python => seq!["venv may fail due to symlink requirements"@, "Some packages expect chmod to work"@],
        ToolKind::Make => seq![
            "Timestamp-based rebuilds may be unreliable"@,
            "Build artifacts may have wrong permissions"@,
        ],
        ToolKind::Archive => seq!["Cannot preserve permissions"@, "Cannot create symlinks"@],
        ToolKind::Rsync => seq![
            "Cannot preserve permissions, ownership, or symlinks"@,
            "Partial transfer recovery may not work correctly"@,
        ],
        _ => Seq::empty(),
    }
}

pub open spec fn tool_recommendation(k: ToolKind) -> Seq<char> {
    match k {
        ToolKind::Git => "For best results, clone repositories to internal storage."@,
        ToolKind::Node => "Use internal storage for Node.js projects."@,
        ToolKind::Python => "Create virtual environments in internal storage."@,
        ToolKind::Make => "Build in internal storage, copy results to external."@,
        ToolKind::Archive => "Archive permissions will not be restored correctly."@,
        ToolKind::Rsync => "Use for data-only transfers, not full backups."@,
        ToolKind::Other => Seq::empty(),
    }
}

pub open spec fn node_reason() -> Seq<char> {
    "npm/yarn use symlinks extensively for node_modules. These will not work on external storage."@
}

/// Result of a tool compatibility check.
#[derive(Debug, Clone)]
pub enum ToolCompatibilityResult {
    /// Tool works perfectly on this filesystem.
    FullyCompatible,
    /// Tool works with some limitations.
    PartiallyCompatible { tool: String, issues: Vec<String>, recommendation: String },
    /// Tool will not work correctly.
    NotCompatible { tool: String, reason: String, recommendation: String },
    /// Unknown tool, cannot determine compatibility.
    Unknown,
}

/// The verdict for `tool` (whose lowercase form is `lower`) on storage with `caps`:
/// anything works off SAF; on SAF the Node family is not compatible, the other known
/// families are partially compatible with their issues, and other tools are unknown.
pub open spec fn tool_verdict(tool: Seq<char>, lower: Seq<char>, caps: VfsCapabilities, r: ToolCompatibilityResult) -> bool {
    if !caps.is_saf {
        r is FullyCompatible
    } else {
        let k = tool_kind(lower);
        if k == ToolKind::Other {
            r is Unknown
        } else if k == ToolKind::Node {
            r matches ToolCompatibilityResult::NotCompatible { tool: t, reason, recommendation } && t@ == tool
                && reason@ == node_reason() && recommendation@ == tool_recommendation(k)
        } else {
            r matches ToolCompatibilityResult::PartiallyCompatible { tool: t, issues, recommendation } && t@ == tool
                && Seq::new(issues@.len(), |i: int| issues@[i]@) == tool_issues(k) && recommendation@
                == tool_recommendation(k)
        }
    }
}

/// Tools that have known issues on SAF filesystems.
pub struct ToolCompatibility;

fn strings2(a: &str, b: &str) -> (v: Vec<String>)
    ensures
        Seq::new(v@.len(), |i: int| v@[i]@) == seq![a@, b@],
{
    let v = vec![owned(a), owned(b)];
    assert(Seq::new(v@.len(), |i: int| v@[i]@) =~= seq![a@, b@]);
    v
}

fn strings3(a: &str, b: &str, c: &str) -> (v: Vec<String>)
    ensures
        Seq::new(v@.len(), |i: int| v@[i]@) == seq![a@, b@, c@],
{
    let v = vec![owned(a), owned(b), owned(c)];
    assert(Seq::new(v@.len(), |i: int| v@[i]@) =~= seq![a@, b@, c@]);
    v
}

impl ToolCompatibility {
    /// The verdict for `tool` once its lowercase form `lower` is known.
    pub fn check_lowercased(tool: &str, lower: &str, caps: &VfsCapabilities) -> (r: ToolCompatibilityResult)
        ensures
            tool_verdict(tool@, lower@, *caps, r),
    {
        if !caps.is_saf {
            return ToolCompatibilityResult::FullyCompatible;
        }
        if str_equals(lower, "git") {
            ToolCompatibilityResult::PartiallyCompatible {
                tool: owned(tool),
                issues: strings3(
                    "Rename detection may be unreliable",
                    "Performance is slower due to SAF overhead",
                    "Permissions are not preserved in clones",
                ),
                recommendation: owned("For best results, clone repositories to internal storage."),
            }
        } else if str_equals(lower, "npm") || str_equals(lower, "yarn") || str_equals(lower, "pnpm") {
            ToolCompatibilityResult::NotCompatible {
                tool: owned(tool),
                reason: owned(
                    "npm/yarn use symlinks extensively for node_modules. These will not work on external storage.",
                ),
                recommendation: owned("Use internal storage for Node.js projects."),
            }
        } else if str_equals(lower, "python") || str_equals(lower, "pip") {
            ToolCompatibilityResult::PartiallyCompatible {
                tool: owned(tool),
                issues: strings2("venv may fail due to symlink requirements", "Some packages expect chmod to work"),
                recommendation: owned("Create virtual environments in internal storage."),
            }
        } else if str_equals(lower, "make") || str_equals(lower, "cmake") {
            ToolCompatibilityResult::PartiallyCompatible {
                tool: owned(tool),
                issues: strings2(
                    "Timestamp-based rebuilds may be unreliable",
                    "Build artifacts may have wrong permissions",
                ),
                recommendation: owned("Build in internal storage, copy results to external."),
            }
        } else if str_equals(lower, "tar") || str_equals(lower, "zip") {
            ToolCompatibilityResult::PartiallyCompatible {
                tool: owned(tool),
                issues: strings2("Cannot preserve permissions", "Cannot create symlinks"),
                recommendation: owned("Archive permissions will not be restored correctly."),
            }
        } else if str_equals(lower, "rsync") {
            ToolCompatibilityResult::PartiallyCompatible {
                tool: owned(tool),
                issues: strings2(
                    "Cannot preserve permissions, ownership, or symlinks",
                    "Partial transfer recovery may not work correctly",
                ),
                recommendation: owned("Use for data-only transfers, not full backups."),
            }
        } else {
            ToolCompatibilityResult::Unknown
        }
    }

    /// Checks whether a tool is compatible with the filesystem capabilities; the tool
    /// name is matched case-insensitively.
    pub fn check(tool: &str, caps: &VfsCapabilities) -> (r: ToolCompatibilityResult)
        ensures
            tool_verdict(tool@, str_to_lowercase(tool@), *caps, r),
    {
        if !caps.is_saf {
            return ToolCompatibilityResult::FullyCompatible;
        }
        let lower = to_lowercase(tool);
        Self::check_lowercased(tool, lower.as_str(), caps)
    }
}

/// The app's own directories are internal storage and everything else is SAF: for
/// any capabilities `c` that `get_capabilities_for_path` may give for `p`, a path under
/// `/data/`, or with a `/files/` or `/cache/` directory in it, has full, non-SAF
/// capabilities (chmod and symlinks included); any other path has SAF capabilities,
/// without chmod or symlinks.
pub proof fn lemma_path_classification(p: Seq<char>, c: VfsCapabilities)
    requires
        is_internal_path(p) ==> is_internal_caps(c),
        !is_internal_path(p) ==> is_saf_caps(c),
    ensures
        starts_with(p, "/data/"@) || contains(p, "/files/"@) || contains(p, "/cache/"@) ==> {
            &&& !c.is_saf
            &&& c.fs_type == FsType::Internal
            &&& c.supported@.contains(VfsOperation::Chmod)
            &&& c.supported@.contains(VfsOperation::Symlink)
            &&& c.supported@.contains(VfsOperation::Read)
        },
        !(starts_with(p, "/data/"@) || contains(p, "/files/"@) || contains(p, "/cache/"@)) ==> {
            &&& c.is_saf
            &&& c.fs_type == FsType::SafExternal
            &&& !c.supported@.contains(VfsOperation::Chmod)
            &&& !c.supported@.contains(VfsOperation::Symlink)
            &&& c.supported@.contains(VfsOperation::Read)
        },
{
    if starts_with(p, "/data/data/"@) {
        reveal_strlit("/data/");
        reveal_strlit("/data/data/");
        assert(p.subrange(0, 6) =~= "/data/"@) by {
            assert(p.subrange(0, 11) == "/data/data/"@);
            assert(p.subrange(0, 6) =~= p.subrange(0, 11).subrange(0, 6));
        }
    }
    if is_saf_caps(c) {
        assert(c.supported@.contains(VfsOperation::Read) <==> external_op(VfsOperation::Read));
        assert(c.supported@.contains(VfsOperation::Chmod) <==> external_op(VfsOperation::Chmod));
        assert(c.supported@.contains(VfsOperation::Symlink) <==> external_op(VfsOperation::Symlink));
    }
    if is_internal_caps(c) {
        assert(c.supported@.contains(VfsOperation::Read));
        assert(c.supported@.contains(VfsOperation::Chmod));
        assert(c.supported@.contains(VfsOperation::Symlink));
    }
}

/// The texts of a list of strings.
pub open spec fn texts_of(v: Seq<String>) -> Seq<Seq<char>> {
    Seq::new(v.len(), |i: int| v[i]@)
}

/// What a tool check answers, for any result `r` the check may give for `tool`
/// (lowercased to `lower`): off SAF every tool is fully compatible; on SAF the
/// Node.js package managers (npm, yarn, pnpm) are not compatible because of their
/// node_modules symlinks; git, python/pip, make/cmake, tar/zip and rsync work with
/// limitations, each with its own advice; any other tool is unknown. The reported
/// tool is the name as given.
pub proof fn lemma_tool_verdicts(tool: Seq<char>, lower: Seq<char>, caps: VfsCapabilities, r: ToolCompatibilityResult)
    requires
        tool_verdict(tool, lower, caps, r),
    ensures
        !caps.is_saf ==> r is FullyCompatible,
        caps.is_saf && (lower == "npm"@ || lower == "yarn"@ || lower == "pnpm"@) ==> (r matches ToolCompatibilityResult::NotCompatible {
            tool: t,
            reason,
            recommendation,
        } && t@ == tool
            && reason@ == "npm/yarn use symlinks extensively for node_modules. These will not work on external storage."@
            && recommendation@ == "Use internal storage for Node.js projects."@),
        caps.is_saf && lower == "git"@ ==> (r matches ToolCompatibilityResult::PartiallyCompatible { tool: t, issues, recommendation }
            && t@ == tool && texts_of(issues@) == seq!["Rename detection may be unreliable"@, "Performance is slower due to SAF overhead"@, "Permissions are not preserved in clones"@] && recommendation@ == "For best results, clone repositories to internal storage."@),
        caps.is_saf && (lower == "python"@ || lower == "pip"@) ==> (r matches ToolCompatibilityResult::PartiallyCompatible {
            tool: t,
            issues,
            recommendation,
        } && t@ == tool && texts_of(issues@) == seq!["venv may fail due to symlink requirements"@, "Some packages expect chmod to work"@] && recommendation@ == "Create virtual environments in internal storage."@),
        caps.is_saf && (lower == "make"@ || lower == "cmake"@) ==> (r matches ToolCompatibilityResult::PartiallyCompatible {
            tool: t,
            issues,
            recommendation,
        } && t@ == tool && texts_of(issues@) == seq!["Timestamp-based rebuilds may be unreliable"@, "Build artifacts may have wrong permissions"@] && recommendation@ == "Build in internal storage, copy results to external."@),
        caps.is_saf && (lower == "tar"@ || lower == "zip"@) ==> (r matches ToolCompatibilityResult::PartiallyCompatible {
            tool: t,
            issues,
            recommendation,
        } && t@ == tool && texts_of(issues@) == seq!["Cannot preserve permissions"@, "Cannot create symlinks"@] && recommendation@ == "Archive permissions will not be restored correctly."@),
        caps.is_saf && lower == "rsync"@ ==> (r matches ToolCompatibilityResult::PartiallyCompatible { tool: t, issues, recommendation }
            && t@ == tool && texts_of(issues@) == seq!["Cannot preserve permissions, ownership, or symlinks"@, "Partial transfer recovery may not work correctly"@] && recommendation@ == "Use for data-only transfers, not full backups."@),
        caps.is_saf && lower != "npm"@ && lower != "yarn"@ && lower != "pnpm"@ && lower != "git"@ && lower != "python"@
            && lower != "pip"@ && lower != "make"@ && lower != "cmake"@ && lower != "tar"@ && lower != "zip"@ && lower
            != "rsync"@ ==> r is Unknown,
{
    reveal_strlit("git");
    reveal_strlit("npm");
    reveal_strlit("yarn");
    reveal_strlit("pnpm");
    reveal_strlit("python");
    reveal_strlit("pip");
    reveal_strlit("make");
    reveal_strlit("cmake");
    reveal_strlit("tar");
    reveal_strlit("zip");
    reveal_strlit("rsync");
    assert("git"@.len() == 3 && "git"@[0] == 'g');
    assert("npm"@.len() == 3 && "npm"@[0] == 'n');
    assert("yarn"@.len() == 4 && "yarn"@[0] == 'y');
    assert("pnpm"@.len() == 4 && "pnpm"@[0] == 'p');
    assert("python"@.len() == 6 && "python"@[0] == 'p');
    assert("pip"@.len() == 3 && "pip"@[0] == 'p');
    assert("make"@.len() == 4 && "make"@[0] == 'm');
    assert("cmake"@.len() == 5 && "cmake"@[0] == 'c');
    assert("tar"@.len() == 3 && "tar"@[0] == 't');
    assert("zip"@.len() == 3 && "zip"@[0] == 'z');
    assert("rsync"@.len() == 5 && "rsync"@[0] == 'r');
    if caps.is_saf {
        let k = tool_kind(lower);
        if k != ToolKind::Other && k != ToolKind::Node {
            if let ToolCompatibilityResult::PartiallyCompatible { issues, .. } = r {
                assert(texts_of(issues@) == Seq::new(issues@.len(), |i: int| issues@[i]@));
            }
        }
    }
}

/// What the capability check says: on internal storage every operation is simply
/// supported. On SAF storage plain file and directory work (read, write, create,
/// delete, list, mkdir, stat) is supported, rename works but is not atomic (with
/// that caveat), and everything Unix-specific (chmod, chown, links, timestamps,
/// watching, atomic rename, mmap, locks, xattrs) is refused for that operation with a
/// reason naming the path.
pub proof fn lemma_operation_checks(path: Seq<char>, op: VfsOperation, caps: VfsCapabilities, r: OperationCheck)
    requires
        check_result(path, op, caps, r),
    ensures
        is_internal_caps(caps) ==> r is Supported,
        is_saf_caps(caps) && (op == VfsOperation::Read || op == VfsOperation::Write || op == VfsOperation::Create || op
            == VfsOperation::Delete || op == VfsOperation::ListDir || op == VfsOperation::Mkdir || op == VfsOperation::Stat)
            ==> r is Supported,
        is_saf_caps(caps) && op == VfsOperation::Rename ==> (r matches OperationCheck::PartialSupport { operation, caveat }
            && operation == VfsOperation::Rename && caveat@
            == "Rename is not atomic on external storage. Files may be in inconsistent state if interrupted."@),
        is_saf_caps(caps) && !(op == VfsOperation::Read || op == VfsOperation::Write || op == VfsOperation::Create || op
            == VfsOperation::Delete || op == VfsOperation::ListDir || op == VfsOperation::Mkdir || op == VfsOperation::Stat
            || op == VfsOperation::Rename) ==> (r matches OperationCheck::NotSupported { operation, reason }
            && operation == op && ends_with_path(reason@, path)),
{
    if is_saf_caps(caps) {
        assert(caps.supported@.contains(op) <==> external_op(op));
        if !caps.supported@.contains(op) {
            let t = unsupported_reason(op) + "\nPath: "@ + path;
            assert(t.subrange(t.len() - path.len(), t.len() as int) =~= path);
        }
    }
}

/// `s` ends with `path`.
pub open spec fn ends_with_path(s: Seq<char>, path: Seq<char>) -> bool {
    path.len() <= s.len() && s.subrange(s.len() - path.len(), s.len() as int) == path
}

} // verus!
