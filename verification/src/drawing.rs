//! A sprite drawn pixel by pixel: the stages between the display before a
//! draw and the display after it, which the drawing loop passes through.
//!
//! Pixels are taken row by row and, within a row, left to right. A stage is
//! named by the next pixel to draw, (`next_row`, `next_column`).

use vstd::prelude::*;
use crate::model::MachineState;

verus! {

/// Whether the pixel in `row` and `column` comes before the next pixel to
/// draw.
pub(crate) open spec fn drawn_before(next_row: int, next_column: int, row: int, column: int)
    -> bool {
    row < next_row || (row == next_row && column < next_column)
}

/// Whether the sprite has a set bit on a pixel that comes before the next one
/// to draw.
pub(crate) open spec fn drawn_pixel(
    s: MachineState,
    left: int,
    top: int,
    height: int,
    next_row: int,
    next_column: int,
    row: int,
    column: int,
) -> bool {
    drawn_before(next_row, next_column, row, column) && s.sprite_pixel(left, top, height, row, column)
}

/// The display of `s` with those pixels of the sprite drawn that come before
/// the next one to draw.
pub(crate) open spec fn partly_drawn(
    s: MachineState,
    left: int,
    top: int,
    height: int,
    next_row: int,
    next_column: int,
) -> Seq<Seq<bool>> {
    Seq::new(
        32,
        |row: int|
            Seq::new(
                64,
                |column: int|
                    s.pixel(row, column) != drawn_pixel(
                        s, left, top, height, next_row, next_column, row, column,
                    ),
            ),
    )
}

/// Whether one of the pixels drawn so far turned a lit pixel off.
pub(crate) open spec fn collided_so_far(
    s: MachineState,
    left: int,
    top: int,
    height: int,
    next_row: int,
    next_column: int,
) -> bool {
    exists|row: int, column: int|
        0 <= row < 32 && 0 <= column < 64 && s.pixel(row, column) && #[trigger] drawn_pixel(
            s, left, top, height, next_row, next_column, row, column,
        )
}

/// Before the first pixel is drawn the picture is the old one and nothing
/// has collided.
pub(crate) proof fn lemma_draw_started(s: MachineState, left: int, top: int, height: int)
    requires
        s.display.len() == 32,
        forall|row: int| 0 <= row < 32 ==> (#[trigger] s.display[row]).len() == 64,
    ensures
        partly_drawn(s, left, top, height, 0, 0) == s.display,
        !collided_so_far(s, left, top, height, 0, 0),
{
    assert(partly_drawn(s, left, top, height, 0, 0) =~~= s.display);
}

/// Drawing the pixel at (`row`, `column`) adds its own collision to those
/// seen so far.
pub(crate) proof fn lemma_collision_step(
    s: MachineState,
    left: int,
    top: int,
    height: int,
    row: int,
    column: int,
)
    requires
        0 <= row < 32,
        0 <= column < 64,
    ensures
        collided_so_far(s, left, top, height, row, column + 1) <==> (collided_so_far(
            s, left, top, height, row, column,
        ) || (s.pixel(row, column) && s.sprite_pixel(left, top, height, row, column))),
{
    if collided_so_far(s, left, top, height, row, column + 1) {
        let (r, c) = choose|r: int, c: int|
            0 <= r < 32 && 0 <= c < 64 && s.pixel(r, c) && #[trigger] drawn_pixel(
                s, left, top, height, row, column + 1, r, c,
            );
        if !(r == row && c == column) {
            assert(drawn_pixel(s, left, top, height, row, column, r, c));
        }
    }
    if collided_so_far(s, left, top, height, row, column) {
        let (r, c) = choose|r: int, c: int|
            0 <= r < 32 && 0 <= c < 64 && s.pixel(r, c) && #[trigger] drawn_pixel(
                s, left, top, height, row, column, r, c,
            );
        assert(drawn_pixel(s, left, top, height, row, column + 1, r, c));
    }
    if s.pixel(row, column) && s.sprite_pixel(left, top, height, row, column) {
        assert(drawn_pixel(s, left, top, height, row, column + 1, row, column));
    }
}

/// Moving the next pixel to draw across pixels that the sprite does not
/// touch changes neither the picture nor the collisions.
pub(crate) proof fn lemma_draw_skip(
    s: MachineState,
    left: int,
    top: int,
    height: int,
    from_row: int,
    from_column: int,
    to_row: int,
    to_column: int,
)
    requires
        forall|row: int, column: int|
            0 <= row < 32 && 0 <= column < 64 && #[trigger] s.sprite_pixel(
                left, top, height, row, column,
            ) ==> (drawn_before(from_row, from_column, row, column) <==> drawn_before(
                to_row, to_column, row, column,
            )),
    ensures
        partly_drawn(s, left, top, height, from_row, from_column) == partly_drawn(
            s, left, top, height, to_row, to_column,
        ),
        collided_so_far(s, left, top, height, from_row, from_column) <==> collided_so_far(
            s, left, top, height, to_row, to_column,
        ),
{
    assert forall|row: int, column: int| 0 <= row < 32 && 0 <= column < 64 implies drawn_pixel(
        s, left, top, height, from_row, from_column, row, column,
    ) == drawn_pixel(s, left, top, height, to_row, to_column, row, column) by {}
    assert(partly_drawn(s, left, top, height, from_row, from_column) =~~= partly_drawn(
        s, left, top, height, to_row, to_column,
    ));
    if collided_so_far(s, left, top, height, from_row, from_column) {
        let (r, c) = choose|r: int, c: int|
            0 <= r < 32 && 0 <= c < 64 && s.pixel(r, c) && #[trigger] drawn_pixel(
                s, left, top, height, from_row, from_column, r, c,
            );
        assert(drawn_pixel(s, left, top, height, to_row, to_column, r, c));
    }
    if collided_so_far(s, left, top, height, to_row, to_column) {
        let (r, c) = choose|r: int, c: int|
            0 <= r < 32 && 0 <= c < 64 && s.pixel(r, c) && #[trigger] drawn_pixel(
                s, left, top, height, to_row, to_column, r, c,
            );
        assert(drawn_pixel(s, left, top, height, from_row, from_column, r, c));
    }
}

/// Once the next pixel to draw lies below the sprite or below the display,
/// the whole sprite has been drawn.
pub(crate) proof fn lemma_draw_complete(
    s: MachineState,
    left: int,
    top: int,
    height: int,
    next_row: int,
)
    requires
        next_row >= top + height || next_row >= 32,
    ensures
        partly_drawn(s, left, top, height, next_row, 0) == s.sprite_drawn(left, top, height),
        collided_so_far(s, left, top, height, next_row, 0) <==> s.sprite_collides(
            left, top, height,
        ),
{
    assert forall|row: int, column: int| 0 <= row < 32 && 0 <= column < 64 implies drawn_pixel(
        s, left, top, height, next_row, 0, row, column,
    ) == s.sprite_pixel(left, top, height, row, column) by {}
    assert(partly_drawn(s, left, top, height, next_row, 0) =~~= s.sprite_drawn(left, top, height));
    if collided_so_far(s, left, top, height, next_row, 0) {
        let (r, c) = choose|r: int, c: int|
            0 <= r < 32 && 0 <= c < 64 && s.pixel(r, c) && #[trigger] drawn_pixel(
                s, left, top, height, next_row, 0, r, c,
            );
        assert(s.sprite_pixel(left, top, height, r, c));
    }
    if s.sprite_collides(left, top, height) {
        let (r, c) = choose|r: int, c: int|
            0 <= r < 32 && 0 <= c < 64 && s.pixel(r, c) && #[trigger] s.sprite_pixel(
                left, top, height, r, c,
            );
        assert(drawn_pixel(s, left, top, height, next_row, 0, r, c));
    }
}

} // verus!
