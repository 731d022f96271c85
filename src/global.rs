use vstd::prelude::*;

verus! {

/// Options that the mesh builder reads.
pub struct Settings {
    /// Colour every vertex at random instead of by its occlusion level.
    pub clown_vomit: bool,
}

impl Default for Settings {
    fn default() -> (r: Settings)
        ensures
            !r.clown_vomit,
    {
        Settings { clown_vomit: false }
    }
}

} // verus!
