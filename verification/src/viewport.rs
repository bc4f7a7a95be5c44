//! The viewport mapper: a stateless clamp from a logical cursor position to a
//! display column inside a window of `width` cells starting at `offset`.
//!
//! The mapper is re-run by the host after every cursor-affecting operation.
//! It shifts the window left when the cursor has moved left of it, and right
//! when the cursor has moved past its right edge, so that the display column
//! always lands in `[0, width - 1]`.

use vstd::prelude::*;

verus! {

/// What `map` computes: the new offset and the display column.
///
/// If the cursor sits left of the window, the window is pulled back so that
/// the cursor becomes its first column. If the cursor sits at or past the
/// right edge, the window is pushed right just far enough that the cursor
/// becomes its last column. Otherwise nothing moves.
pub open spec fn map_spec(offset: nat, cursor: nat, width: nat) -> (nat, nat)
    recommends
        1 <= width,
{
    if cursor < offset {
        (cursor, 0)
    } else if cursor - offset >= width {
        ((cursor + 1 - width) as nat, (width - 1) as nat)
    } else {
        (offset, (cursor - offset) as nat)
    }
}

/// Re-clamp the scroll window: from the current `offset`, the logical
/// `cursor` and the window `width`, compute the new offset and the cursor's
/// display column.
///
/// The display column is always a pure projection of cursor and new offset,
/// and always lies inside the window.
pub fn map(offset: usize, cursor: usize, width: usize) -> (r: (usize, usize))
    requires
        1 <= width,
    ensures
        (r.0 as nat, r.1 as nat) == map_spec(offset as nat, cursor as nat, width as nat),
        r.1 < width,
        r.1 == cursor - r.0,
        r.0 <= cursor,
        offset <= cursor < offset + width ==> r.0 == offset,
{
    if cursor < offset {
        (cursor, 0)
    } else {
        let display = cursor - offset;
        if display >= width {
            let excess = display - width + 1;
            (offset + excess, width - 1)
        } else {
            (offset, display)
        }
    }
}

/// The clamp is a fixpoint: feeding its own output back in moves nothing,
/// whatever distance the cursor jumped before the first call. This is why a
/// single (non-iterative) call suffices even after `moveHome` or `moveEnd`.
pub proof fn lemma_map_idempotent(offset: nat, cursor: nat, width: nat)
    requires
        1 <= width,
    ensures
        map_spec(map_spec(offset, cursor, width).0, cursor, width) == map_spec(
            offset,
            cursor,
            width,
        ),
{
}

} // verus!
