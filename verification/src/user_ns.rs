//! The user-namespace mapper: which identifier mappings a new user namespace
//! may be given, and how a failure to write them is told apart.
//!
//! The mappings are written by the parent, after the child exists and before
//! the child acts under a mapped identity. This module decides whether a
//! configuration can be written at all and names the ways in which the write
//! can fail. The write itself is the caller's part.

use vstd::prelude::*;

verus! {

/// The most lines that one mapping file takes.
pub const MAX_MAPPINGS: usize = 340;

/// One line of a mapping file: `count` identifiers, starting at `inside` in the
/// namespace, stand for the identifiers starting at `outside` on the host.
#[derive(Clone, Copy, Debug, PartialEq, Eq, Structural)]
pub struct IdMapping {
    /// The first identifier inside the namespace.
    pub inside: u32,
    /// The first identifier on the host.
    pub outside: u32,
    /// The number of identifiers.
    pub count: u32,
}

/// Why the mappings of a namespace were not written.
#[derive(Clone, Copy, Debug, PartialEq, Eq, Structural)]
pub enum MappingError {
    /// The target process no longer exists.
    NoSuchProcess,
    /// The ranges cannot be written as they are.
    InvalidRanges,
    /// The writer lacks the privilege that the mapping needs.
    PermissionDenied,
    /// The write failed for another reason, with this error number.
    Other(i32),
}

/// The error number of "operation not permitted".
pub const EPERM: i32 = 1;

/// The error number of "no such file or directory".
pub const ENOENT: i32 = 2;

/// The error number of "no such process".
pub const ESRCH: i32 = 3;

/// The error number of "permission denied".
pub const EACCES: i32 = 13;

/// The error number of "invalid argument".
pub const EINVAL: i32 = 22;

/// The failure that an error number of the write stands for.
pub open spec fn failure_of(errno: i32) -> MappingError {
    if errno == ESRCH || errno == ENOENT {
        MappingError::NoSuchProcess
    } else if errno == EINVAL {
        MappingError::InvalidRanges
    } else if errno == EPERM || errno == EACCES {
        MappingError::PermissionDenied
    } else {
        MappingError::Other(errno)
    }
}

/// Names the failure behind the error number with which the write of a mapping
/// file ended.
pub fn classify_failure(errno: i32) -> (error: MappingError)
    ensures
        error == failure_of(errno),
{
    if errno == ESRCH || errno == ENOENT {
        MappingError::NoSuchProcess
    } else if errno == EINVAL {
        MappingError::InvalidRanges
    } else if errno == EPERM || errno == EACCES {
        MappingError::PermissionDenied
    } else {
        MappingError::Other(errno)
    }
}

/// The range is not empty and ends within the 32-bit identifier space, inside
/// the namespace and on the host.
pub open spec fn range_fits(mapping: IdMapping) -> bool {
    &&& mapping.count > 0
    &&& mapping.inside + mapping.count <= 0x1_0000_0000
    &&& mapping.outside + mapping.count <= 0x1_0000_0000
}

/// Two ranges of identifiers have no identifier in common.
pub open spec fn apart(first: u32, first_count: u32, second: u32, second_count: u32) -> bool {
    first + first_count <= second || second + second_count <= first
}

/// No identifier is mapped twice by the two lines, on either side.
pub open spec fn lines_apart(a: IdMapping, b: IdMapping) -> bool {
    apart(a.inside, a.count, b.inside, b.count) && apart(a.outside, a.count, b.outside, b.count)
}

/// The lines can be written as one mapping file: there are not too many, each
/// range fits, and no two overlap.
pub open spec fn valid_ranges(lines: Seq<IdMapping>) -> bool {
    &&& lines.len() <= MAX_MAPPINGS
    &&& forall|i: int| 0 <= i < lines.len() ==> range_fits(#[trigger] lines[i])
    &&& forall|i: int, j: int|
        0 <= i < j < lines.len() ==> lines_apart(#[trigger] lines[i], #[trigger] lines[j])
}

fn check_range(mapping: &IdMapping) -> (fits: bool)
    ensures
        fits == range_fits(*mapping),
{
    mapping.count > 0 && mapping.count - 1 <= u32::MAX - mapping.inside && mapping.count - 1
        <= u32::MAX - mapping.outside
}

fn check_apart(first: u32, first_count: u32, second: u32, second_count: u32) -> (is_apart: bool)
    ensures
        is_apart == apart(first, first_count, second, second_count),
{
    (first <= second && first_count <= second - first) || (second <= first && second_count <= first
        - second)
}

/// Decides whether the lines can be written as one mapping file.
pub fn check_ranges(lines: &[IdMapping]) -> (valid: bool)
    ensures
        valid == valid_ranges(lines@),
{
    if lines.len() > MAX_MAPPINGS {
        return false;
    }
    let mut i: usize = 0;
    while i < lines.len()
        invariant
            i <= lines.len(),
            lines.len() <= MAX_MAPPINGS,
            forall|k: int| 0 <= k < i ==> range_fits(#[trigger] lines@[k]),
            forall|k: int, l: int| 0 <= k < l < i ==> lines_apart(#[trigger] lines@[k], #[trigger] lines@[l]),
        decreases lines.len() - i,
    {
        if !check_range(&lines[i]) {
            return false;
        }
        let mut j: usize = 0;
        while j < i
            invariant
                j <= i < lines.len(),
                forall|k: int| 0 <= k < j ==> lines_apart(#[trigger] lines@[k], lines@[i as int]),
            decreases i - j,
        {
            let a = &lines[j];
            let b = &lines[i];
            if !(check_apart(a.inside, a.count, b.inside, b.count) && check_apart(
                a.outside,
                a.count,
                b.outside,
                b.count,
            )) {
                assert(!lines_apart(lines@[j as int], lines@[i as int]));
                return false;
            }
            j += 1;
        }
        i += 1;
    }
    true
}

/// The decimal digits of a number, as bytes, without leading zeros.
pub open spec fn decimal(value: nat) -> Seq<u8>
    decreases value,
{
    if value < 10 {
        seq![(48 + value) as u8]
    } else {
        decimal(value / 10).push((48 + value % 10) as u8)
    }
}

/// One line of a mapping file: the three numbers of the mapping, separated by
/// one space each and ended by a line feed.
pub open spec fn line_text(mapping: IdMapping) -> Seq<u8> {
    decimal(mapping.inside as nat) + seq![32u8] + decimal(mapping.outside as nat) + seq![32u8]
        + decimal(mapping.count as nat) + seq![10u8]
}

/// The text of a mapping file: its lines, in order.
pub open spec fn file_text(lines: Seq<IdMapping>) -> Seq<u8>
    decreases lines.len(),
{
    if lines.len() == 0 {
        Seq::empty()
    } else {
        file_text(lines.drop_last()) + line_text(lines.last())
    }
}

/// Which of the two mapping files of a process.
#[derive(Clone, Copy, Debug, PartialEq, Eq, Structural)]
pub enum MapKind {
    /// The file of user identifiers.
    Uid,
    /// The file of group identifiers.
    Gid,
}

/// The bytes of `/proc/`.
pub open spec fn proc_prefix() -> Seq<u8> {
    seq![47u8, 112u8, 114u8, 111u8, 99u8, 47u8]
}

/// The bytes of `/uid_map` or of `/gid_map`.
pub open spec fn map_suffix(kind: MapKind) -> Seq<u8> {
    match kind {
        MapKind::Uid => seq![47u8, 117u8, 105u8, 100u8, 95u8, 109u8, 97u8, 112u8],
        MapKind::Gid => seq![47u8, 103u8, 105u8, 100u8, 95u8, 109u8, 97u8, 112u8],
    }
}

/// The path of a mapping file of the process `pid`.
pub open spec fn map_path(pid: i32, kind: MapKind) -> Seq<u8> {
    proc_prefix() + decimal(pid as nat) + map_suffix(kind)
}

/// Appends the decimal digits of `value`.
fn push_decimal(out: &mut Vec<u8>, value: u32)
    ensures
        final(out)@ == old(out)@ + decimal(value as nat),
    decreases value,
{
    if value >= 10 {
        push_decimal(out, value / 10);
    }
    let digit: u8 = 48 + (value % 10) as u8;
    out.push(digit);
    assert(out@ =~= old(out)@ + decimal(value as nat));
}

/// Writes out the text of a mapping file.
pub fn render_mappings(lines: &[IdMapping]) -> (text: Vec<u8>)
    ensures
        text@ == file_text(lines@),
{
    let mut text: Vec<u8> = Vec::new();
    let mut i: usize = 0;
    while i < lines.len()
        invariant
            i <= lines.len(),
            text@ == file_text(lines@.take(i as int)),
        decreases lines.len() - i,
    {
        let ghost before = text@;
        let mapping = &lines[i];
        push_decimal(&mut text, mapping.inside);
        text.push(32u8);
        push_decimal(&mut text, mapping.outside);
        text.push(32u8);
        push_decimal(&mut text, mapping.count);
        text.push(10u8);
        proof {
            let done = lines@.take(i + 1);
            assert(done.drop_last() =~= lines@.take(i as int));
            assert(done.last() == lines@[i as int]);
            assert(text@ =~= before + line_text(lines@[i as int]));
        }
        i += 1;
    }
    assert(lines@.take(lines.len() as int) =~= lines@);
    text
}

/// The path of a mapping file of the process `pid`, or nothing if `pid` is not
/// the identifier of a process.
pub fn map_file_path(pid: i32, kind: MapKind) -> (path: Option<Vec<u8>>)
    ensures
        match path {
            Some(bytes) => pid > 0 && bytes@ == map_path(pid, kind),
            None => pid <= 0,
        },
{
    if pid <= 0 {
        return None;
    }
    let mut path: Vec<u8> = Vec::new();
    path.push(47u8);
    path.push(112u8);
    path.push(114u8);
    path.push(111u8);
    path.push(99u8);
    path.push(47u8);
    assert(path@ =~= proc_prefix());
    push_decimal(&mut path, pid as u32);
    let ghost numbered = path@;
    path.push(47u8);
    match kind {
        MapKind::Uid => path.push(117u8),
        MapKind::Gid => path.push(103u8),
    }
    path.push(105u8);
    path.push(100u8);
    path.push(95u8);
    path.push(109u8);
    path.push(97u8);
    path.push(112u8);
    assert(path@ =~= numbered + map_suffix(kind));
    Some(path)
}

/// The identifier mappings of one user namespace.
#[derive(Debug, PartialEq, Eq)]
pub struct UserNamespaceConfig {
    /// The user-identifier lines.
    pub uid_mappings: Vec<IdMapping>,
    /// The group-identifier lines.
    pub gid_mappings: Vec<IdMapping>,
}

impl UserNamespaceConfig {
    /// Both mapping files of the configuration can be written.
    pub open spec fn valid(&self) -> bool {
        valid_ranges(self.uid_mappings@) && valid_ranges(self.gid_mappings@)
    }

    /// The text of one of the two mapping files.
    pub open spec fn text_of(&self, kind: MapKind) -> Seq<u8> {
        match kind {
            MapKind::Uid => file_text(self.uid_mappings@),
            MapKind::Gid => file_text(self.gid_mappings@),
        }
    }

    /// Writes out the text of one of the two mapping files.
    pub fn render(&self, kind: MapKind) -> (text: Vec<u8>)
        ensures
            text@ == self.text_of(kind),
    {
        match kind {
            MapKind::Uid => render_mappings(self.uid_mappings.as_slice()),
            MapKind::Gid => render_mappings(self.gid_mappings.as_slice()),
        }
    }

    /// Decides whether both mapping files of the configuration can be written.
    pub fn is_valid(&self) -> (valid: bool)
        ensures
            valid == self.valid(),
    {
        check_ranges(self.uid_mappings.as_slice()) && check_ranges(self.gid_mappings.as_slice())
    }
}

} // verus!
