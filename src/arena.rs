//! Arena metadata. The host fixes width and height for the whole game; the
//! size is their pair, never computed another way.
use vstd::prelude::*;

verus! {

/// The (width, height) of the arena, from the width and height that the host
/// reported.
pub fn get_arena_size(width: u32, height: u32) -> (r: (u32, u32))
    ensures
        r == (width, height),
{
    (width, height)
}

} // verus!
