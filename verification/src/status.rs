//! Entries of the working tree's status, and their counts by category.

use vstd::prelude::*;
use crate::color::ADDED_SLOT;
use crate::color::BRANCH_SLOT;
use crate::color::COMMIT_SLOT;
use crate::color::WARNING_SLOT;

verus! {

/// The categories that are counted, in the order in which they are shown.
#[derive(Clone, Copy, Debug, PartialEq, Eq, Structural)]
pub enum Category {
    /// A file that is new in the working tree.
    New,
    /// A file that is gone from the working tree.
    Deleted,
    /// A file that is modified in the working tree.
    Modified,
    /// A file that is renamed in the working tree.
    Renamed,
    /// A file whose type changed in the working tree.
    TypeChanged,
    /// A file with a merge conflict.
    Conflicted,
}

impl Category {
    /// The letter that is shown in front of the category's count.
    pub open spec fn letter_text(self) -> Seq<char> {
        match self {
            Category::New => seq!['N'],
            Category::Deleted => seq!['D'],
            Category::Modified => seq!['M'],
            Category::Renamed => seq!['R'],
            Category::TypeChanged => seq!['T'],
            Category::Conflicted => seq!['C'],
        }
    }

    /// The slot of the colour scheme that paints the category's count.
    pub open spec fn slot_index(self) -> usize {
        match self {
            Category::New => ADDED_SLOT,
            Category::Deleted => COMMIT_SLOT,
            Category::Modified => WARNING_SLOT,
            Category::Renamed => BRANCH_SLOT,
            Category::TypeChanged => BRANCH_SLOT,
            Category::Conflicted => COMMIT_SLOT,
        }
    }

    /// The letter that is shown in front of the category's count.
    pub fn letter(self) -> (letter: &'static str)
        ensures
            letter@ == self.letter_text(),
    {
        proof {
            reveal_strlit("N");
            reveal_strlit("D");
            reveal_strlit("M");
            reveal_strlit("R");
            reveal_strlit("T");
            reveal_strlit("C");
        }
        let letter = match self {
            Category::New => "N",
            Category::Deleted => "D",
            Category::Modified => "M",
            Category::Renamed => "R",
            Category::TypeChanged => "T",
            Category::Conflicted => "C",
        };
        assert(letter@ =~= self.letter_text());
        letter
    }

    /// The slot of the colour scheme that paints the category's count.
    pub fn slot(self) -> (slot: usize)
        ensures
            slot == self.slot_index(),
            slot < 4,
    {
        match self {
            Category::New => ADDED_SLOT,
            Category::Deleted => COMMIT_SLOT,
            Category::Modified => WARNING_SLOT,
            Category::Renamed => BRANCH_SLOT,
            Category::TypeChanged => BRANCH_SLOT,
            Category::Conflicted => COMMIT_SLOT,
        }
    }
}

/// What `git2::Status::is_wt_new` answers for the flags `bits`.
pub uninterp spec fn flags_wt_new(bits: u32) -> bool;

/// What `git2::Status::is_wt_deleted` answers for the flags `bits`.
pub uninterp spec fn flags_wt_deleted(bits: u32) -> bool;

/// What `git2::Status::is_wt_modified` answers for the flags `bits`.
pub uninterp spec fn flags_wt_modified(bits: u32) -> bool;

/// What `git2::Status::is_wt_renamed` answers for the flags `bits`.
pub uninterp spec fn flags_wt_renamed(bits: u32) -> bool;

/// What `git2::Status::is_wt_typechange` answers for the flags `bits`.
pub uninterp spec fn flags_wt_typechange(bits: u32) -> bool;

/// What `git2::Status::is_conflicted` answers for the flags `bits`.
pub uninterp spec fn flags_conflicted(bits: u32) -> bool;

/// Calls `git2::Status::is_wt_new` on the status with the flags `bits`.
/// Trusted: the answer depends on the flags alone.
#[verifier::external_body]
fn is_wt_new(bits: u32) -> (answer: bool)
    ensures
        answer == flags_wt_new(bits),
{
    git2::Status::from_bits_retain(bits).is_wt_new()
}

/// Calls `git2::Status::is_wt_deleted` on the status with the flags `bits`.
/// Trusted: the answer depends on the flags alone.
#[verifier::external_body]
fn is_wt_deleted(bits: u32) -> (answer: bool)
    ensures
        answer == flags_wt_deleted(bits),
{
    git2::Status::from_bits_retain(bits).is_wt_deleted()
}

/// Calls `git2::Status::is_wt_modified` on the status with the flags `bits`.
/// Trusted: the answer depends on the flags alone.
#[verifier::external_body]
fn is_wt_modified(bits: u32) -> (answer: bool)
    ensures
        answer == flags_wt_modified(bits),
{
    git2::Status::from_bits_retain(bits).is_wt_modified()
}

/// Calls `git2::Status::is_wt_renamed` on the status with the flags `bits`.
/// Trusted: the answer depends on the flags alone.
#[verifier::external_body]
fn is_wt_renamed(bits: u32) -> (answer: bool)
    ensures
        answer == flags_wt_renamed(bits),
{
    git2::Status::from_bits_retain(bits).is_wt_renamed()
}

/// Calls `git2::Status::is_wt_typechange` on the status with the flags
/// `bits`. Trusted: the answer depends on the flags alone.
#[verifier::external_body]
fn is_wt_typechange(bits: u32) -> (answer: bool)
    ensures
        answer == flags_wt_typechange(bits),
{
    git2::Status::from_bits_retain(bits).is_wt_typechange()
}

/// Calls `git2::Status::is_conflicted` on the status with the flags `bits`.
/// Trusted: the answer depends on the flags alone.
#[verifier::external_body]
fn is_conflicted(bits: u32) -> (answer: bool)
    ensures
        answer == flags_conflicted(bits),
{
    git2::Status::from_bits_retain(bits).is_conflicted()
}

/// What is counted of one entry of the status: for each category, whether
/// the entry falls under it. An entry may fall under several, or under none.
#[derive(Clone, Copy, Debug, PartialEq, Eq, Structural)]
pub struct StatusEntry {
    /// New in the working tree.
    pub wt_new: bool,
    /// Gone from the working tree.
    pub wt_deleted: bool,
    /// Modified in the working tree.
    pub wt_modified: bool,
    /// Renamed in the working tree.
    pub wt_renamed: bool,
    /// Of another type in the working tree.
    pub wt_typechange: bool,
    /// In conflict.
    pub conflicted: bool,
}

impl StatusEntry {
    /// Whether the entry falls under `category`.
    pub open spec fn falls_under(self, category: Category) -> bool {
        match category {
            Category::New => self.wt_new,
            Category::Deleted => self.wt_deleted,
            Category::Modified => self.wt_modified,
            Category::Renamed => self.wt_renamed,
            Category::TypeChanged => self.wt_typechange,
            Category::Conflicted => self.conflicted,
        }
    }

    /// The entry of a file whose status has the flags `bits`, as
    /// `git2::Status::bits` gives them.
    pub fn from_bits(bits: u32) -> (entry: StatusEntry)
        ensures
            entry == (StatusEntry {
                wt_new: flags_wt_new(bits),
                wt_deleted: flags_wt_deleted(bits),
                wt_modified: flags_wt_modified(bits),
                wt_renamed: flags_wt_renamed(bits),
                wt_typechange: flags_wt_typechange(bits),
                conflicted: flags_conflicted(bits),
            }),
    {
        StatusEntry {
            wt_new: is_wt_new(bits),
            wt_deleted: is_wt_deleted(bits),
            wt_modified: is_wt_modified(bits),
            wt_renamed: is_wt_renamed(bits),
            wt_typechange: is_wt_typechange(bits),
            conflicted: is_conflicted(bits),
        }
    }

    /// Whether the entry falls under `category`.
    pub fn is_in(&self, category: Category) -> (answer: bool)
        ensures
            answer == self.falls_under(category),
    {
        match category {
            Category::New => self.wt_new,
            Category::Deleted => self.wt_deleted,
            Category::Modified => self.wt_modified,
            Category::Renamed => self.wt_renamed,
            Category::TypeChanged => self.wt_typechange,
            Category::Conflicted => self.conflicted,
        }
    }
}

/// How many of `entries` fall under `category`.
pub open spec fn count_of(entries: Seq<StatusEntry>, category: Category) -> nat
    decreases entries.len(),
{
    if entries.len() == 0 {
        0
    } else {
        count_of(entries.drop_last(), category) + if entries.last().falls_under(category) {
            1nat
        } else {
            0nat
        }
    }
}

/// No category counts more entries than there are.
pub proof fn lemma_count_of_bounded(entries: Seq<StatusEntry>, category: Category)
    ensures
        count_of(entries, category) <= entries.len(),
    decreases entries.len(),
{
    if entries.len() > 0 {
        lemma_count_of_bounded(entries.drop_last(), category);
    }
}

/// The counts of one status, one for each category.
#[derive(Clone, Copy, Debug, PartialEq, Eq, Structural)]
pub struct StatusCounts {
    /// Files that are new.
    pub new: usize,
    /// Files that are gone.
    pub deleted: usize,
    /// Files that are modified.
    pub modified: usize,
    /// Files that are renamed.
    pub renamed: usize,
    /// Files of another type.
    pub typechanged: usize,
    /// Files in conflict.
    pub conflicted: usize,
}

impl StatusCounts {
    /// The count of `category`.
    pub open spec fn of(self, category: Category) -> usize {
        match category {
            Category::New => self.new,
            Category::Deleted => self.deleted,
            Category::Modified => self.modified,
            Category::Renamed => self.renamed,
            Category::TypeChanged => self.typechanged,
            Category::Conflicted => self.conflicted,
        }
    }

    /// Whether these are the counts of `entries`.
    pub open spec fn counts(self, entries: Seq<StatusEntry>) -> bool {
        &&& self.new == count_of(entries, Category::New)
        &&& self.deleted == count_of(entries, Category::Deleted)
        &&& self.modified == count_of(entries, Category::Modified)
        &&& self.renamed == count_of(entries, Category::Renamed)
        &&& self.typechanged == count_of(entries, Category::TypeChanged)
        &&& self.conflicted == count_of(entries, Category::Conflicted)
    }

    /// The counts of a status without entries.
    pub fn new() -> (counts: StatusCounts)
        ensures
            counts.counts(Seq::empty()),
            counts == (StatusCounts {
                new: 0,
                deleted: 0,
                modified: 0,
                renamed: 0,
                typechanged: 0,
                conflicted: 0,
            }),
    {
        StatusCounts {
            new: 0,
            deleted: 0,
            modified: 0,
            renamed: 0,
            typechanged: 0,
            conflicted: 0,
        }
    }

    /// The count of `category`.
    pub fn get(&self, category: Category) -> (count: usize)
        ensures
            count == self.of(category),
    {
        match category {
            Category::New => self.new,
            Category::Deleted => self.deleted,
            Category::Modified => self.modified,
            Category::Renamed => self.renamed,
            Category::TypeChanged => self.typechanged,
            Category::Conflicted => self.conflicted,
        }
    }
}

/// No count of a status is larger than the number of its entries.
pub proof fn lemma_counts_bounded(counts: StatusCounts, entries: Seq<StatusEntry>)
    requires
        counts.counts(entries),
    ensures
        counts.new <= entries.len(),
        counts.deleted <= entries.len(),
        counts.modified <= entries.len(),
        counts.renamed <= entries.len(),
        counts.typechanged <= entries.len(),
        counts.conflicted <= entries.len(),
{
    lemma_count_of_bounded(entries, Category::New);
    lemma_count_of_bounded(entries, Category::Deleted);
    lemma_count_of_bounded(entries, Category::Modified);
    lemma_count_of_bounded(entries, Category::Renamed);
    lemma_count_of_bounded(entries, Category::TypeChanged);
    lemma_count_of_bounded(entries, Category::Conflicted);
}

/// One more than `count` where `hit` holds, else `count`.
fn bump(count: usize, hit: bool) -> (next: usize)
    requires
        count < usize::MAX,
    ensures
        next == count + if hit { 1int } else { 0int },
{
    if hit {
        count + 1
    } else {
        count
    }
}

/// Counts the entries of a status by category. An entry counts once in each
/// category that it falls under.
pub fn count_statuses(entries: &Vec<StatusEntry>) -> (counts: StatusCounts)
    ensures
        counts.counts(entries@),
{
    let mut counts = StatusCounts::new();
    let mut i: usize = 0;
    while i < entries.len()
        invariant
            i <= entries.len(),
            counts.counts(entries@.take(i as int)),
        decreases entries.len() - i,
    {
        let entry = entries[i];
        proof {
            lemma_counts_bounded(counts, entries@.take(i as int));
        }
        assert(entries@.take(i + 1).drop_last() == entries@.take(i as int));
        counts =
        StatusCounts {
            new: bump(counts.new, entry.wt_new),
            deleted: bump(counts.deleted, entry.wt_deleted),
            modified: bump(counts.modified, entry.wt_modified),
            renamed: bump(counts.renamed, entry.wt_renamed),
            typechanged: bump(counts.typechanged, entry.wt_typechange),
            conflicted: bump(counts.conflicted, entry.conflicted),
        };
        i += 1;
    }
    assert(entries@.take(i as int) == entries@);
    counts
}

} // verus!
