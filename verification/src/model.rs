//! The world as plain mathematics: where the sprite stands, how one tick moves
//! it, and which bytes a frame of it holds.
use crate::bounds::{crosses, turned, wrap_into};
use crate::color::{spec_background_color, spec_box_color, Rgba};
use crate::direction::Direction;
use vstd::prelude::*;

verus! {

/// What drives the sprite. A world keeps the kind of motion it was built with.
#[derive(Clone, Copy, Debug, PartialEq, Eq, Structural)]
pub enum Motion {
    /// A velocity that persists from tick to tick and is inverted, axis by
    /// axis, where the sprite meets an edge.
    Velocity { dx: i64, dy: i64 },
    /// The unit step of the latest intent; a step over an edge is brought
    /// back by `wrap_into`.
    Intent(Direction),
}

/// The farthest coordinate that a reflected sprite is ever given: one past the
/// widest surface, plus the most that a negative size can add to it.
pub open spec fn reach() -> int {
    0x1_0000_8000
}

/// One axis of a reflected sprite is sound: the velocity is a unit, and the
/// sprite is within reach both now and after the coming tick.
pub open spec fn glides(position: int, velocity: int, size: int, extent: int) -> bool {
    &&& velocity == 1 || velocity == -1
    &&& -1 <= position <= reach()
    &&& -1 <= position + turned(velocity, position, size, extent) <= reach()
}

/// The state of a world.
pub ghost struct WorldView {
    /// Left edge of the sprite.
    pub x: int,
    /// Top edge of the sprite.
    pub y: int,
    /// Edge length of the square sprite.
    pub size: int,
    /// Width of the surface in pixels.
    pub width: int,
    /// Height of the surface in pixels.
    pub height: int,
    /// What moves the sprite.
    pub motion: Motion,
}

impl WorldView {
    /// The states that a world can be in: a surface with pixels, and a sprite
    /// near enough to it that no step leaves the range of the coordinates.
    /// A wrapped sprite stands between the origin and one past the extent.
    pub open spec fn valid(self) -> bool {
        &&& 1 <= self.width <= u32::MAX
        &&& 1 <= self.height <= u32::MAX
        &&& i16::MIN <= self.size <= i16::MAX
        &&& match self.motion {
            Motion::Intent(_) => {
                &&& 0 <= self.x <= self.width + 1
                &&& 0 <= self.y <= self.height + 1
            },
            Motion::Velocity { dx, dy } => {
                &&& glides(self.x, dx as int, self.size, self.width)
                &&& glides(self.y, dy as int, self.size, self.height)
            },
        }
    }

    /// The state after a new intent was recorded. A world that moves by its
    /// velocity has no intent to replace and stays as it is.
    pub open spec fn with_intent(self, direction: Direction) -> WorldView {
        match self.motion {
            Motion::Intent(_) => WorldView { motion: Motion::Intent(direction), ..self },
            Motion::Velocity { .. } => self,
        }
    }

    /// The state after one tick.
    pub open spec fn step(self) -> WorldView {
        match self.motion {
            Motion::Intent(direction) => WorldView {
                x: wrap_into(0, self.width, self.x + direction.dx()),
                y: wrap_into(0, self.height, self.y + direction.dy()),
                ..self
            },
            Motion::Velocity { dx, dy } => {
                let dx = turned(dx as int, self.x, self.size, self.width);
                let dy = turned(dy as int, self.y, self.size, self.height);
                WorldView {
                    x: self.x + dx,
                    y: self.y + dy,
                    motion: Motion::Velocity { dx: dx as i64, dy: dy as i64 },
                    ..self
                }
            },
        }
    }

    /// The state after `ticks` ticks.
    pub open spec fn after(self, ticks: nat) -> WorldView
        decreases ticks,
    {
        if ticks == 0 {
            self
        } else {
            self.step().after((ticks - 1) as nat)
        }
    }

    /// Whether the sprite covers the pixel in column `px` of row `py`.
    pub open spec fn covers(self, px: int, py: int) -> bool {
        &&& self.x <= px < self.x + self.size
        &&& self.y <= py < self.y + self.size
    }

    /// The number of bytes in a frame: four for each pixel.
    pub open spec fn frame_len(self) -> int {
        self.width * self.height * 4
    }

    /// The colour of the pixel with linear index `i`, rows first.
    pub open spec fn color_at(self, i: int) -> Rgba {
        if self.covers(i % self.width, i / self.width) {
            spec_box_color()
        } else {
            spec_background_color()
        }
    }

    /// The frame of this state: every pixel, row by row, four bytes each.
    pub open spec fn frame(self) -> Seq<u8> {
        Seq::new(self.frame_len() as nat, |k: int| self.color_at(k / 4).bytes()[k % 4])
    }

    /// What a buffer holds after this state was drawn into it: the frame,
    /// where the buffer has the length of one, and else what it held before.
    pub open spec fn drawn(self, before: Seq<u8>) -> Seq<u8> {
        if before.len() == self.frame_len() {
            self.frame()
        } else {
            before
        }
    }
}

} // verus!
