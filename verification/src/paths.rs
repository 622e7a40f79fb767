//! Paths below a base folder, as the names of the folders to go through.

use vstd::prelude::*;
use crate::names::{copy_names, names_of};

verus! {

/// A path below a base folder: the names to go through, the outermost
/// first. The empty path is the base folder itself.
#[derive(Debug, PartialEq, Eq)]
pub struct RelPath {
    /// The names along the path.
    pub components: Vec<String>,
}

impl View for RelPath {
    type V = Seq<Seq<char>>;

    open spec fn view(&self) -> Seq<Seq<char>> {
        names_of(self.components@)
    }
}

impl RelPath {
    /// The base folder itself.
    pub fn base() -> (path: RelPath)
        ensures
            path@ == Seq::<Seq<char>>::empty(),
    {
        RelPath { components: Vec::new() }
    }

    /// The path that goes on from this one into `name`.
    pub fn join(&self, name: &str) -> (path: RelPath)
        ensures
            path@ == self@.push(name@),
    {
        let mut components = copy_names(&self.components);
        components.push(String::from_str(name));
        RelPath { components }
    }

    /// The path of the folder that holds this one, or nothing for the base
    /// folder, which this path does not go above.
    pub fn parent(&self) -> (path: Option<RelPath>)
        ensures
            path is None <==> self@.len() == 0,
            path matches Some(above) ==> above@ == self@.drop_last(),
    {
        if self.components.len() == 0 {
            None
        } else {
            let mut components = copy_names(&self.components);
            components.pop();
            Some(RelPath { components })
        }
    }

    /// Whether this path and `other` go through the same names.
    pub fn same_as(&self, other: &RelPath) -> (same: bool)
        ensures
            same == (self@ == other@),
    {
        if self.components.len() != other.components.len() {
            assert(self@.len() != other@.len());
            return false;
        }
        let mut i: usize = 0;
        while i < self.components.len()
            invariant
                i <= self.components.len(),
                self.components.len() == other.components.len(),
                forall|k: int| 0 <= k < i ==> self@[k] == other@[k],
            decreases self.components.len() - i,
        {
            if self.components[i] != other.components[i] {
                assert(self@[i as int] != other@[i as int]);
                return false;
            }
            i = i + 1;
        }
        assert(self@ =~= other@);
        true
    }

    /// A copy of this path.
    pub fn copy(&self) -> (path: RelPath)
        ensures
            path@ == self@,
    {
        RelPath { components: copy_names(&self.components) }
    }
}

} // verus!
