//! Filesystem actions. The builder never touches a filesystem: it returns
//! an ordered list of [`Action`] values, and the caller that owns the real
//! filesystem executes them in order, stopping at the first failure.

use vstd::prelude::*;

verus! {

/// One filesystem action, with its path as segments below the project root.
#[derive(Debug, Clone, PartialEq, Eq)]
pub enum Action {
    /// Create the directory, accepting one that already exists.
    MkDir(Vec<String>),
    /// Create (or truncate) the file; `None` leaves it empty.
    WriteFile(Vec<String>, Option<String>),
}

/// The mathematical form of an [`Action`]: segment sequences of characters.
pub enum ActionV {
    /// Create the directory at the path.
    MkDir(Seq<Seq<char>>),
    /// Create or truncate the file at the path, with the given content.
    WriteFile(Seq<Seq<char>>, Option<Seq<char>>),
}

impl DeepView for Action {
    type V = ActionV;

    open spec fn deep_view(&self) -> ActionV {
        match self {
            Action::MkDir(path) => ActionV::MkDir(path.deep_view()),
            Action::WriteFile(path, content) => ActionV::WriteFile(
                path.deep_view(),
                content.deep_view(),
            ),
        }
    }
}

/// Copies a path vector.
pub fn clone_path(path: &Vec<String>) -> (r: Vec<String>)
    ensures
        r.deep_view() == path.deep_view(),
{
    let mut r: Vec<String> = Vec::new();
    let mut i: usize = 0;
    while i < path.len()
        invariant
            i <= path.len(),
            r@.len() == i,
            r.deep_view() =~= path.deep_view().subrange(0, i as int),
        decreases path.len() - i,
    {
        let c: String = path[i].clone();
        r.push(c);
        proof {
            assert forall|j: int| 0 <= j < i + 1 implies r.deep_view()[j]
                == path.deep_view()[j] by {
                if j < i {
                    assert(path.deep_view().subrange(0, i as int)[j] == path.deep_view()[j]);
                }
            }
            assert(r.deep_view() =~= path.deep_view().subrange(0, (i + 1) as int));
        }
        i = i + 1;
    }
    proof {
        assert(path.deep_view().subrange(0, path@.len() as int) =~= path.deep_view());
    }
    r
}

/// Copies a path and appends one more segment: the path of a child entry.
pub fn push_segment(base: &Vec<String>, segment: &str) -> (r: Vec<String>)
    ensures
        r.deep_view() == base.deep_view().push(segment@),
{
    let mut r = clone_path(base);
    r.push(segment.to_owned());
    proof {
        assert(r.deep_view() =~= base.deep_view().push(segment@));
    }
    r
}

} // verus!
