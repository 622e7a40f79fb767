//! The library's index: what a listing of the library's folders says of its
//! exams, of an exam's levels and of a level's exercises.

use vstd::prelude::*;
use crate::names::names_of;
use crate::numeral::spec_level_number;
use crate::order::{
    in_level_order, lemma_level_order_is_unique, lemma_order_puts_numbered_first, sort_levels,
};

verus! {

/// One entry of a folder's listing.
#[derive(Debug, PartialEq, Eq)]
pub struct DirEntry {
    /// The entry's name.
    pub name: String,
    /// Whether the entry is a folder.
    pub is_dir: bool,
}

/// One level of an exam.
#[derive(Debug, PartialEq, Eq)]
pub struct Level {
    /// The level's number in what is written out: its place among the
    /// exam's levels, counted from one.
    pub ordinal: usize,
    /// The name of the level's folder in the library.
    pub folder: String,
}

impl Level {
    /// A copy of the level.
    pub fn copy(&self) -> (level: Level)
        ensures
            level == *self,
    {
        Level { ordinal: self.ordinal, folder: self.folder.clone() }
    }
}

/// Why the library yields no exam.
#[derive(Clone, Copy, Debug, PartialEq, Eq, Structural)]
pub enum DiscoveryError {
    /// The library's root is missing or cannot be read.
    NotFound,
    /// The library's root holds no folder.
    EmptyLibrary,
}

/// The names of the folders among `entries`, in the order of the listing.
pub open spec fn folders(entries: Seq<DirEntry>) -> Seq<Seq<char>>
    decreases entries.len(),
{
    if entries.len() == 0 {
        Seq::empty()
    } else {
        let earlier = folders(entries.drop_last());
        if entries.last().is_dir {
            earlier.push(entries.last().name@)
        } else {
            earlier
        }
    }
}

/// The names of the levels' folders, in the order of `levels`.
pub open spec fn level_folders(levels: Seq<Level>) -> Seq<Seq<char>> {
    levels.map_values(|level: Level| level.folder@)
}

/// Whether the levels are numbered 1, 2, 3 and so on, without a gap.
pub open spec fn densely_numbered(levels: Seq<Level>) -> bool {
    forall|i: int| 0 <= i < levels.len() ==> (#[trigger] levels[i]).ordinal == i + 1
}

/// Whether `levels` are the levels of the exam whose folder lists `entries`:
/// the folders of the listing, each once for each time it is listed, in
/// level order and numbered from one without a gap.
pub open spec fn are_levels_of(levels: Seq<Level>, entries: Seq<DirEntry>) -> bool {
    &&& in_level_order(level_folders(levels))
    &&& level_folders(levels).to_multiset() == folders(entries).to_multiset()
    &&& densely_numbered(levels)
}

/// The levels of an exam are as many as the folders of its listing.
pub proof fn lemma_levels_are_as_many(levels: Seq<Level>, entries: Seq<DirEntry>)
    requires
        are_levels_of(levels, entries),
    ensures
        levels.len() == folders(entries).len(),
{
    level_folders(levels).to_multiset_ensures();
    folders(entries).to_multiset_ensures();
}

/// A listing has one list of levels only: two lists of levels of the same
/// listing agree in every number and in every folder's name.
pub proof fn lemma_levels_are_determined(a: Seq<Level>, b: Seq<Level>, entries: Seq<DirEntry>)
    requires
        are_levels_of(a, entries),
        are_levels_of(b, entries),
    ensures
        a.len() == b.len(),
        forall|i: int|
            0 <= i < a.len() ==> (#[trigger] a[i]).ordinal == b[i].ordinal && a[i].folder@
                == b[i].folder@,
{
    lemma_level_order_is_unique(level_folders(a), level_folders(b));
    assert(level_folders(b).len() == b.len());
    assert forall|i: int| 0 <= i < a.len() implies (#[trigger] a[i]).ordinal == b[i].ordinal
        && a[i].folder@ == b[i].folder@ by {
        assert(level_folders(b)[i] == b[i].folder@);
    }
}

/// Every folder of a listing is one of its entries, and one that is a
/// folder: an entry that is none is passed over.
pub proof fn lemma_folders_are_entries(entries: Seq<DirEntry>, k: int)
    requires
        0 <= k < folders(entries).len(),
    ensures
        exists|i: int|
            0 <= i < entries.len() && (#[trigger] entries[i]).is_dir && entries[i].name@
                == folders(entries)[k],
    decreases entries.len(),
{
    if k < folders(entries.drop_last()).len() {
        lemma_folders_are_entries(entries.drop_last(), k);
    }
}

/// Every entry of a listing that is a folder is among its folders.
pub proof fn lemma_folders_hold_every_folder(entries: Seq<DirEntry>, i: int)
    requires
        0 <= i < entries.len(),
        entries[i].is_dir,
    ensures
        folders(entries).contains(entries[i].name@),
    decreases entries.len(),
{
    let earlier = folders(entries.drop_last());
    if i == entries.len() - 1 {
        assert(folders(entries)[earlier.len() as int] == entries[i].name@);
    } else {
        lemma_folders_hold_every_folder(entries.drop_last(), i);
        let k = choose|k: int| 0 <= k < earlier.len() && earlier[k] == entries[i].name@;
        assert(folders(entries)[k] == entries[i].name@);
    }
}

/// The names of the folders among `entries`, in the order of the listing.
/// Entries that are no folders are passed over.
pub fn list_folders(entries: &Vec<DirEntry>) -> (found: Vec<String>)
    ensures
        names_of(found@) == folders(entries@),
{
    let mut found: Vec<String> = Vec::new();
    let mut i: usize = 0;
    while i < entries.len()
        invariant
            i <= entries.len(),
            names_of(found@) == folders(entries@.take(i as int)),
        decreases entries.len() - i,
    {
        assert(entries@.take(i + 1).drop_last() =~= entries@.take(i as int));
        if entries[i].is_dir {
            found.push(entries[i].name.clone());
        }
        i = i + 1;
    }
    assert(entries@.take(i as int) =~= entries@);
    found
}

/// The exams of the library, in the order of the listing of its root:
/// `listing` is that listing, or `None` where the root is missing or cannot
/// be read.
pub fn list_exams(listing: Option<&Vec<DirEntry>>) -> (exams: Result<Vec<String>, DiscoveryError>)
    ensures
        match exams {
            Ok(names) => listing matches Some(entries) && names_of(names@) == folders(entries@)
                && names.len() > 0,
            Err(DiscoveryError::NotFound) => listing is None,
            Err(DiscoveryError::EmptyLibrary) => listing matches Some(entries) && folders(
                entries@,
            ).len() == 0,
        },
{
    match listing {
        None => Err(DiscoveryError::NotFound),
        Some(entries) => {
            let names = list_folders(entries);
            if names.len() == 0 {
                Err(DiscoveryError::EmptyLibrary)
            } else {
                Ok(names)
            }
        },
    }
}

/// The levels of an exam, in the order in which they are taken, from the
/// listing of the exam's folder.
///
/// The levels are the folders of the listing, put in level order and
/// numbered from one without a gap, whatever numbers their names denote;
/// the folders whose names denote a number come first.
pub fn list_levels(entries: &Vec<DirEntry>) -> (levels: Vec<Level>)
    ensures
        are_levels_of(levels@, entries@),
        forall|i: int, j: int|
            0 <= i < levels.len() && 0 <= j < levels.len() && spec_level_number(
                #[trigger] levels[i].folder@,
            ) is Some && spec_level_number(#[trigger] levels[j].folder@) is None ==> i < j,
{
    let found = list_folders(entries);
    let sorted = sort_levels(&found);
    let mut levels: Vec<Level> = Vec::new();
    let mut i: usize = 0;
    while i < sorted.len()
        invariant
            i <= sorted.len(),
            levels.len() == i,
            densely_numbered(levels@),
            level_folders(levels@) == names_of(sorted@.take(i as int)),
        decreases sorted.len() - i,
    {
        let ghost earlier = level_folders(levels@);
        levels.push(Level { ordinal: i + 1, folder: sorted[i].clone() });
        assert(names_of(sorted@.take(i + 1)) =~= earlier.push(sorted@[i as int]@));
        i = i + 1;
    }
    proof {
        assert(sorted@.take(i as int) =~= sorted@);
        let ordered = level_folders(levels@);
        assert forall|i: int, j: int|
            0 <= i < levels.len() && 0 <= j < levels.len() && spec_level_number(
                #[trigger] levels[i].folder@,
            ) is Some && spec_level_number(#[trigger] levels[j].folder@) is None implies i
            < j by {
            lemma_order_puts_numbered_first(ordered, i, j);
        }
    }
    levels
}

/// The exercises of a level, in the order of the listing of the level's
/// folder. A level without exercises gives the empty list.
pub fn list_exercises(entries: &Vec<DirEntry>) -> (exercises: Vec<String>)
    ensures
        names_of(exercises@) == folders(entries@),
{
    list_folders(entries)
}

} // verus!
