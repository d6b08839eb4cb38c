//! Classification of a raw per-file change bitset into index and worktree states.
use vstd::prelude::*;

verus! {

/// Bit set when the file was added to the index.
pub const INDEX_NEW: u32 = 1;
/// Bit set when the file was modified in the index.
pub const INDEX_MODIFIED: u32 = 2;
/// Bit set when the file was deleted from the index.
pub const INDEX_DELETED: u32 = 4;
/// Bit set when the file was renamed in the index.
pub const INDEX_RENAMED: u32 = 8;
/// Bit set when the file changed type in the index.
pub const INDEX_TYPECHANGE: u32 = 16;
/// Bit set when the file is new in the worktree (untracked).
pub const WT_NEW: u32 = 128;
/// Bit set when the file was modified in the worktree.
pub const WT_MODIFIED: u32 = 256;
/// Bit set when the file was deleted from the worktree.
pub const WT_DELETED: u32 = 512;
/// Bit set when the file changed type in the worktree.
pub const WT_TYPECHANGE: u32 = 1024;
/// Bit set when the file was renamed in the worktree.
pub const WT_RENAMED: u32 = 2048;
/// Bit set when the file is ignored.
pub const IGNORED: u32 = 16384;
/// Bit set when the file has a merge conflict.
pub const CONFLICTED: u32 = 32768;

/// All index-side bits.
pub const INDEX_MASK: u32 = 31;
/// All worktree-side bits.
pub const WT_MASK: u32 = 3968;

/// The state of a file along one axis (index or worktree).
#[derive(PartialEq, Eq, Structural, Clone, Copy, Debug)]
pub enum FileState {
    Added,
    Modified,
    Renamed,
    TypeChanged,
    Deleted,
    Unchanged,
}

/// The classification of one changed file.
#[derive(PartialEq, Eq, Structural, Clone, Copy, Debug)]
pub enum Status {
    /// A merge conflict, which supersedes both axes.
    Conflicted,
    Changed { index: FileState, worktree: FileState },
}

pub open spec fn has_bit(bits: u32, flag: u32) -> bool {
    bits & flag != 0
}

/// The state picked from five flags, the first set one in a fixed priority
/// order: new, modified, renamed, type change, deleted.
pub open spec fn axis_state(bits: u32, new: u32, modified: u32, renamed: u32, typechange: u32, deleted: u32) -> FileState {
    if has_bit(bits, new) {
        FileState::Added
    } else if has_bit(bits, modified) {
        FileState::Modified
    } else if has_bit(bits, renamed) {
        FileState::Renamed
    } else if has_bit(bits, typechange) {
        FileState::TypeChanged
    } else if has_bit(bits, deleted) {
        FileState::Deleted
    } else {
        FileState::Unchanged
    }
}

pub open spec fn index_state_of(bits: u32) -> FileState {
    axis_state(bits, INDEX_NEW, INDEX_MODIFIED, INDEX_RENAMED, INDEX_TYPECHANGE, INDEX_DELETED)
}

pub open spec fn worktree_state_of(bits: u32) -> FileState {
    axis_state(bits, WT_NEW, WT_MODIFIED, WT_RENAMED, WT_TYPECHANGE, WT_DELETED)
}

/// The classification of a raw bitset.
pub open spec fn status_of(bits: u32) -> Status {
    if has_bit(bits, CONFLICTED) {
        Status::Conflicted
    } else {
        Status::Changed { index: index_state_of(bits), worktree: worktree_state_of(bits) }
    }
}

/// Whether a bitset records a change worth listing: a conflict or any index
/// or worktree change. Ignored files and unchanged files are not listed.
pub open spec fn is_change(bits: u32) -> bool {
    has_bit(bits, CONFLICTED | INDEX_MASK | WT_MASK)
}

/// The one-letter code of a state; a space for `Unchanged`.
pub open spec fn letter_of(s: FileState) -> char {
    match s {
        FileState::Added => 'A',
        FileState::Modified => 'M',
        FileState::Renamed => 'R',
        FileState::TypeChanged => 'T',
        FileState::Deleted => 'D',
        FileState::Unchanged => ' ',
    }
}

/// The two-character code of a status.
pub open spec fn code_of(s: Status) -> Seq<char> {
    match s {
        Status::Conflicted => seq!['X', 'X'],
        Status::Changed { index, worktree } => seq![letter_of(index), letter_of(worktree)],
    }
}

fn axis(bits: u32, new: u32, modified: u32, renamed: u32, typechange: u32, deleted: u32) -> (r: FileState)
    ensures
        r == axis_state(bits, new, modified, renamed, typechange, deleted),
{
    if bits & new != 0 {
        FileState::Added
    } else if bits & modified != 0 {
        FileState::Modified
    } else if bits & renamed != 0 {
        FileState::Renamed
    } else if bits & typechange != 0 {
        FileState::TypeChanged
    } else if bits & deleted != 0 {
        FileState::Deleted
    } else {
        FileState::Unchanged
    }
}

/// Whether a raw bitset records a change worth listing.
pub fn is_listed(bits: u32) -> (r: bool)
    ensures
        r == is_change(bits),
{
    bits & (CONFLICTED | INDEX_MASK | WT_MASK) != 0
}

impl FileState {
    /// The one-letter code of this state, a space for `Unchanged`.
    pub fn code(&self) -> (r: &'static str)
        ensures
            r@ == seq![letter_of(*self)],
    {
        proof {
            reveal_strlit("A");
            reveal_strlit("M");
            reveal_strlit("R");
            reveal_strlit("T");
            reveal_strlit("D");
            reveal_strlit(" ");
        }
        match self {
            FileState::Added => "A",
            FileState::Modified => "M",
            FileState::Renamed => "R",
            FileState::TypeChanged => "T",
            FileState::Deleted => "D",
            FileState::Unchanged => " ",
        }
    }
}

impl Status {
    /// Classify a raw bitset. A conflict takes precedence over every other bit;
    /// otherwise each axis is taken from its own group of bits.
    pub fn new(bits: u32) -> (r: Status)
        ensures
            r == status_of(bits),
    {
        if bits & CONFLICTED != 0 {
            Status::Conflicted
        } else {
            Status::Changed {
                index: axis(bits, INDEX_NEW, INDEX_MODIFIED, INDEX_RENAMED, INDEX_TYPECHANGE, INDEX_DELETED),
                worktree: axis(bits, WT_NEW, WT_MODIFIED, WT_RENAMED, WT_TYPECHANGE, WT_DELETED),
            }
        }
    }

    pub fn is_conflicted(&self) -> (r: bool)
        ensures
            r == (*self is Conflicted),
    {
        match self {
            Status::Conflicted => true,
            Status::Changed { .. } => false,
        }
    }

    /// The two-character display code: `XX` for a conflict, else the index
    /// letter followed by the worktree letter.
    pub fn code(&self) -> (r: String)
        ensures
            r@ == code_of(*self),
    {
        match self {
            Status::Conflicted => {
                proof {
                    reveal_strlit("XX");
                }
                String::from_str("XX")
            },
            Status::Changed { index, worktree } => {
                let s = String::from_str(index.code());
                let r = s.concat(worktree.code());
                assert(r@ =~= code_of(*self));
                r
            },
        }
    }
}

/// A conflicted bitset is classified as a conflict, whatever its other bits.
pub proof fn lemma_conflict_wins(bits: u32, other: u32)
    requires
        has_bit(bits, CONFLICTED),
    ensures
        status_of(bits) == Status::Conflicted,
        status_of(bits | other) == Status::Conflicted,
{
    assert((bits & 32768u32) != 0u32 ==> ((bits | other) & 32768u32) != 0u32) by (bit_vector);
}

/// Without the conflict bit, the index state depends on the index bits alone
/// and the worktree state on the worktree bits alone; the two groups of bits
/// are disjoint.
pub proof fn lemma_axes_independent(a: u32, b: u32)
    requires
        !has_bit(a, CONFLICTED),
        !has_bit(b, CONFLICTED),
    ensures
        INDEX_MASK & WT_MASK == 0,
        a & INDEX_MASK == b & INDEX_MASK ==> index_state_of(a) == index_state_of(b),
        a & WT_MASK == b & WT_MASK ==> worktree_state_of(a) == worktree_state_of(b),
        status_of(a) == (Status::Changed { index: index_state_of(a), worktree: worktree_state_of(a) }),
{
    assert(31u32 & 3968u32 == 0u32) by (bit_vector);
    assert(a & 31u32 == b & 31u32 ==> (
        ((a & 1u32 != 0u32) == (b & 1u32 != 0u32))
        && ((a & 2u32 != 0u32) == (b & 2u32 != 0u32))
        && ((a & 4u32 != 0u32) == (b & 4u32 != 0u32))
        && ((a & 8u32 != 0u32) == (b & 8u32 != 0u32))
        && ((a & 16u32 != 0u32) == (b & 16u32 != 0u32)))) by (bit_vector);
    assert(a & 3968u32 == b & 3968u32 ==> (
        ((a & 128u32 != 0u32) == (b & 128u32 != 0u32))
        && ((a & 256u32 != 0u32) == (b & 256u32 != 0u32))
        && ((a & 512u32 != 0u32) == (b & 512u32 != 0u32))
        && ((a & 1024u32 != 0u32) == (b & 1024u32 != 0u32))
        && ((a & 2048u32 != 0u32) == (b & 2048u32 != 0u32)))) by (bit_vector);
}

} // verus!
