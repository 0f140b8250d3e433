//! Choosing the game directory among the places where it may lie.

use vstd::prelude::*;
use vstd::string::*;

verus! {

/// A place where the game may lie, and whether a directory is there.
#[derive(Clone, Debug, PartialEq, Eq)]
pub struct Candidate {
    pub path: String,
    pub exists: bool,
}

/// `i` is the first candidate that exists.
pub open spec fn is_first_existing(candidates: Seq<Candidate>, i: int) -> bool {
    &&& 0 <= i < candidates.len()
    &&& candidates[i].exists
    &&& forall|j: int| 0 <= j < i ==> !candidates[j].exists
}

/// The name of the game's directory in a Steam library.
pub fn game_dir_name() -> (r: &'static str)
    ensures
        r@ == "SpiderHeck"@,
{
    "SpiderHeck"
}

/// Finds the game: the first candidate that exists, in the order given, or
/// nothing where none exists.
pub fn find_spiderheck_path(candidates: &Vec<Candidate>) -> (r: Option<String>)
    ensures
        match r {
            Some(p) => exists|i: int|
                is_first_existing(candidates@, i) && p@ == candidates@[i].path@,
            None => forall|j: int| 0 <= j < candidates@.len() ==> !candidates@[j].exists,
        },
{
    let mut i: usize = 0;
    while i < candidates.len()
        invariant
            i <= candidates@.len(),
            forall|j: int| 0 <= j < i ==> !candidates@[j].exists,
        decreases candidates@.len() - i,
    {
        if candidates[i].exists {
            assert(is_first_existing(candidates@, i as int));
            return Some(candidates[i].path.clone());
        }
        i = i + 1;
    }
    None
}

/// At most one candidate is the first that exists.
pub proof fn first_existing_is_unique(candidates: Seq<Candidate>, i: int, j: int)
    requires
        is_first_existing(candidates, i),
        is_first_existing(candidates, j),
    ensures
        i == j,
{
}

} // verus!
