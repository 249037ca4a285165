use vstd::prelude::*;

verus! {

/// Which of the three panels currently receives cursor input.
#[derive(Debug, Clone, PartialEq, Eq, Structural)]
pub enum Focus {
    Branches,
    Commits,
    Staged,
}

/// The panel reached by one step of forward rotation.
pub open spec fn spec_next_focus(f: Focus) -> Focus {
    match f {
        Focus::Branches => Focus::Commits,
        Focus::Commits => Focus::Staged,
        Focus::Staged => Focus::Branches,
    }
}

/// The panel reached by one step of backward rotation.
pub open spec fn spec_prev_focus(f: Focus) -> Focus {
    match f {
        Focus::Branches => Focus::Staged,
        Focus::Commits => Focus::Branches,
        Focus::Staged => Focus::Commits,
    }
}

/// Rotating forward three times is the identity, and backward rotation is the
/// exact inverse of forward rotation, from every starting panel.
pub proof fn lemma_focus_rotation_cycle(f: Focus)
    ensures
        spec_next_focus(spec_next_focus(spec_next_focus(f))) == f,
        spec_prev_focus(spec_prev_focus(spec_prev_focus(f))) == f,
        spec_prev_focus(spec_next_focus(f)) == f,
        spec_next_focus(spec_prev_focus(f)) == f,
{
}

} // verus!
