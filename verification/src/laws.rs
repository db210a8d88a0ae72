//! What holds of every world, whatever its size and wherever its sprite
//! stands. Each law is stated over the model that the contracts of
//! `World` speak of.
use crate::bounds::crosses;
use crate::color::{spec_background_color, spec_box_color};
use crate::direction::Direction;
use crate::model::{Motion, WorldView};
use vstd::prelude::*;

verus! {

/// A tick takes a valid state to a valid state.
pub proof fn lemma_step_keeps_valid(w: WorldView)
    requires
        w.valid(),
    ensures
        w.step().valid(),
{
}

/// Recording an intent takes a valid state to a valid state.
pub proof fn lemma_intent_keeps_valid(w: WorldView, direction: Direction)
    requires
        w.valid(),
    ensures
        w.with_intent(direction).valid(),
{
}

/// Any number of ticks takes a valid state to a valid state, and changes
/// neither the surface nor the size of the sprite nor the kind of motion.
pub proof fn lemma_ticks_keep_valid(w: WorldView, ticks: nat)
    requires
        w.valid(),
    ensures
        w.after(ticks).valid(),
        w.after(ticks).width == w.width,
        w.after(ticks).height == w.height,
        w.after(ticks).size == w.size,
        w.after(ticks).motion is Intent <==> w.motion is Intent,
    decreases ticks,
{
    if ticks > 0 {
        lemma_step_keeps_valid(w);
        lemma_ticks_keep_valid(w.step(), (ticks - 1) as nat);
    }
}

/// A wrapped sprite that stands between the origin and the extent on an axis
/// stands there after a tick too, whatever the intent. The one step that
/// this does not hold of is the step back from the origin.
pub proof fn lemma_wrap_stays_on_surface(w: WorldView)
    requires
        w.valid(),
        w.motion is Intent,
    ensures
        w.x <= w.width && !(w.x == 0 && w.motion == Motion::Intent(Direction::Left)) ==> 0
            <= w.step().x <= w.width,
        w.y <= w.height && !(w.y == 0 && w.motion == Motion::Intent(Direction::Up)) ==> 0
            <= w.step().y <= w.height,
{
}

/// The step back from the origin lands a wrapped sprite one past the extent.
pub proof fn lemma_wrap_from_origin(w: WorldView)
    requires
        w.valid(),
    ensures
        w.x == 0 && w.motion == Motion::Intent(Direction::Left) ==> w.step().x == w.width + 1,
        w.y == 0 && w.motion == Motion::Intent(Direction::Up) ==> w.step().y == w.height + 1,
{
}

/// Moving right: one tick after the intent `Right` a wrapped sprite stands one
/// column further, or, where that column lies past the extent, as far past
/// the origin as that column lies past the extent. Its row is the same,
/// unless it stood one row past the extent, where the tick brings it back.
pub proof fn lemma_right_moves_one_column(w: WorldView)
    requires
        w.valid(),
        w.motion is Intent,
    ensures
        w.x + 1 <= w.width ==> w.with_intent(Direction::Right).step().x == w.x + 1,
        w.x + 1 > w.width ==> w.with_intent(Direction::Right).step().x == w.x + 1 - w.width,
        w.y <= w.height <==> w.with_intent(Direction::Right).step().y == w.y,
{
}

/// A tick inverts a component of the velocity if and only if the sprite fails
/// the boundary test on that axis before the tick, and else keeps it; the
/// sprite then moves by the velocity that results.
pub proof fn lemma_reflect_turns_iff_crossing(w: WorldView)
    requires
        w.valid(),
        w.motion is Velocity,
    ensures
        w.step().motion is Velocity,
        w.step().motion->dx == -w.motion->dx <==> crosses(w.x, w.size, w.width),
        w.step().motion->dx == w.motion->dx <==> !crosses(w.x, w.size, w.width),
        w.step().motion->dy == -w.motion->dy <==> crosses(w.y, w.size, w.height),
        w.step().motion->dy == w.motion->dy <==> !crosses(w.y, w.size, w.height),
        w.step().x == w.x + w.step().motion->dx,
        w.step().y == w.y + w.step().motion->dy,
{
}

/// Whether a coordinate of the sprite lies between the sprite's own size
/// before the origin and the extent.
pub open spec fn near(position: int, size: int, extent: int) -> bool {
    -size <= position <= extent
}

/// On an axis that has room for it, a reflected sprite that is near the
/// surface now and after the coming tick is near it after any number of
/// ticks.
pub proof fn lemma_bounce_stays_near_surface(w: WorldView, ticks: nat)
    requires
        w.valid(),
        w.motion is Velocity,
    ensures
        1 <= w.size <= w.width && near(w.x, w.size, w.width) && near(
            w.step().x,
            w.size,
            w.width,
        ) ==> near(w.after(ticks).x, w.size, w.width),
        1 <= w.size <= w.height && near(w.y, w.size, w.height) && near(
            w.step().y,
            w.size,
            w.height,
        ) ==> near(w.after(ticks).y, w.size, w.height),
    decreases ticks,
{
    if ticks > 0 {
        lemma_step_keeps_valid(w);
        lemma_bounce_stays_near_surface(w.step(), (ticks - 1) as nat);
    }
}

/// Drawing is repeatable: what a buffer holds after a state was drawn into it
/// does not change when the same state is drawn into it again, and two
/// buffers of the length of a frame hold the same bytes after the same state
/// was drawn into each.
pub proof fn lemma_draw_repeatable(w: WorldView, first: Seq<u8>, second: Seq<u8>)
    requires
        w.valid(),
    ensures
        w.drawn(w.drawn(first)) == w.drawn(first),
        first.len() == w.frame_len() && second.len() == w.frame_len() ==> w.drawn(first)
            == w.drawn(second),
{
    assert(w.width * w.height * 4 >= 0) by (nonlinear_arith)
        requires
            w.width >= 1,
            w.height >= 1,
    ;
}

/// A frame has four bytes for each pixel, and each pixel has the colour of
/// the sprite where the sprite covers it and that of the background where it
/// does not.
pub proof fn lemma_frame_pixels(w: WorldView, px: int, py: int, channel: int)
    requires
        w.valid(),
        0 <= px < w.width,
        0 <= py < w.height,
        0 <= channel < 4,
    ensures
        w.frame().len() == w.frame_len(),
        0 <= (py * w.width + px) * 4 + channel < w.frame_len(),
        w.covers(px, py) ==> w.frame()[(py * w.width + px) * 4 + channel]
            == spec_box_color().bytes()[channel],
        !w.covers(px, py) ==> w.frame()[(py * w.width + px) * 4 + channel]
            == spec_background_color().bytes()[channel],
{
    let i = py * w.width + px;
    assert(0 <= i < w.width * w.height && i / w.width == py && i % w.width == px)
        by (nonlinear_arith)
        requires
            i == py * w.width + px,
            0 <= px < w.width,
            0 <= py < w.height,
    ;
    let k = i * 4 + channel;
    assert(k / 4 == i && k % 4 == channel);
    assert(w.frame()[k] == w.color_at(k / 4).bytes()[k % 4]);
}

} // verus!
