//! The world itself: a sprite on a surface, moved once per tick and drawn
//! into frames that the caller owns.
use crate::bounds::{apply_bounds, hits_bounds};
use crate::color::{background_color, box_color};
use crate::direction::Direction;
use crate::error::WorldError;
use crate::model::{Motion, WorldView};
use vstd::prelude::*;

verus! {

/// A square sprite on a surface of `width` by `height` pixels.
pub struct World {
    box_x: i64,
    box_y: i64,
    box_size: i16,
    width: u32,
    height: u32,
    motion: Motion,
}

impl View for World {
    type V = WorldView;

    closed spec fn view(&self) -> WorldView {
        WorldView {
            x: self.box_x as int,
            y: self.box_y as int,
            size: self.box_size as int,
            width: self.width as int,
            height: self.height as int,
            motion: self.motion,
        }
    }
}

impl World {
    #[verifier::type_invariant]
    spec fn sound(&self) -> bool {
        self@.valid()
    }

    /// A world whose sprite stands at the origin and follows the latest
    /// intent, at first `Right`, wrapping at the edges. A surface without
    /// pixels is refused.
    pub fn new(width: u32, height: u32, box_size: i16) -> (res: Result<World, WorldError>)
        ensures
            res is Ok <==> width > 0 && height > 0,
            res is Err ==> res == Err::<World, WorldError>(WorldError::ZeroArea),
            res is Ok ==> res->Ok_0@ == (WorldView {
                x: 0,
                y: 0,
                size: box_size as int,
                width: width as int,
                height: height as int,
                motion: Motion::Intent(Direction::Right),
            }),
            res is Ok ==> res->Ok_0@.valid(),
    {
        if width == 0 || height == 0 {
            return Err(WorldError::ZeroArea);
        }
        Ok(World {
            box_x: 0,
            box_y: 0,
            box_size,
            width,
            height,
            motion: Motion::Intent(Direction::Right),
        })
    }

    /// A world whose sprite starts at `(x, y)` with the velocity `(1, 1)` and
    /// is reflected at the edges. A surface without pixels is refused.
    pub fn bouncing(width: u32, height: u32, box_size: i16, x: u32, y: u32) -> (res: Result<
        World,
        WorldError,
    >)
        ensures
            res is Ok <==> width > 0 && height > 0,
            res is Err ==> res == Err::<World, WorldError>(WorldError::ZeroArea),
            res is Ok ==> res->Ok_0@ == (WorldView {
                x: x as int,
                y: y as int,
                size: box_size as int,
                width: width as int,
                height: height as int,
                motion: Motion::Velocity { dx: 1, dy: 1 },
            }),
            res is Ok ==> res->Ok_0@.valid(),
    {
        if width == 0 || height == 0 {
            return Err(WorldError::ZeroArea);
        }
        Ok(World {
            box_x: x as i64,
            box_y: y as i64,
            box_size,
            width,
            height,
            motion: Motion::Velocity { dx: 1, dy: 1 },
        })
    }

    /// Left edge of the sprite.
    pub fn x(&self) -> (res: i64)
        ensures
            res == self@.x,
    {
        self.box_x
    }

    /// Top edge of the sprite.
    pub fn y(&self) -> (res: i64)
        ensures
            res == self@.y,
    {
        self.box_y
    }

    /// Edge length of the sprite.
    pub fn size(&self) -> (res: i16)
        ensures
            res == self@.size,
    {
        self.box_size
    }

    /// Width of the surface in pixels.
    pub fn width(&self) -> (res: u32)
        ensures
            res == self@.width,
    {
        self.width
    }

    /// Height of the surface in pixels.
    pub fn height(&self) -> (res: u32)
        ensures
            res == self@.height,
    {
        self.height
    }

    /// What moves the sprite: its velocity, or the latest intent.
    pub fn motion(&self) -> (res: Motion)
        ensures
            res == self@.motion,
    {
        self.motion
    }

    /// Records the direction in which the next tick moves the sprite.
    pub fn set_direction(&mut self, new_direction: Direction)
        ensures
            final(self)@ == old(self)@.with_intent(new_direction),
            final(self)@.valid(),
    {
        proof {
            use_type_invariant(&*self);
        }
        match self.motion {
            Motion::Intent(_) => {
                self.motion = Motion::Intent(new_direction);
            },
            Motion::Velocity { .. } => {},
        }
    }

    /// Advances the sprite by one tick of its motion.
    pub fn update(&mut self)
        ensures
            final(self)@ == old(self)@.step(),
            final(self)@.valid(),
    {
        proof {
            use_type_invariant(&*self);
        }
        match self.motion {
            Motion::Intent(direction) => {
                let (velocity_x, velocity_y) = direction.unit_step();
                let x = apply_bounds(0, self.width as i64, velocity_x + self.box_x);
                let y = apply_bounds(0, self.height as i64, velocity_y + self.box_y);
                self.box_x = x;
                self.box_y = y;
            },
            Motion::Velocity { dx, dy } => {
                let velocity_x = if hits_bounds(self.box_x, self.box_size, self.width) {
                    -dx
                } else {
                    dx
                };
                let velocity_y = if hits_bounds(self.box_y, self.box_size, self.height) {
                    -dy
                } else {
                    dy
                };
                *self = World {
                    box_x: self.box_x + velocity_x,
                    box_y: self.box_y + velocity_y,
                    box_size: self.box_size,
                    width: self.width,
                    height: self.height,
                    motion: Motion::Velocity { dx: velocity_x, dy: velocity_y },
                };
            },
        }
    }

    /// Whether the sprite covers the pixel in column `px` of row `py`.
    fn covers(&self, px: u32, py: u32) -> (res: bool)
        ensures
            res == self@.covers(px as int, py as int),
    {
        proof {
            use_type_invariant(self);
        }
        let x = px as i64;
        let y = py as i64;
        let size = self.box_size as i64;
        x >= self.box_x && x < self.box_x + size && y >= self.box_y && y < self.box_y + size
    }

    /// Draws the world into `frame`, four bytes for each pixel, row by row.
    /// A frame of any other length than that is refused and left as it was.
    pub fn draw(&self, frame: &mut [u8]) -> (res: Result<(), WorldError>)
        ensures
            res is Ok <==> old(frame)@.len() == self@.frame_len(),
            res is Err ==> res == Err::<(), WorldError>(WorldError::BufferSizeMismatch),
            final(frame)@ == self@.drawn(old(frame)@),
    {
        proof {
            use_type_invariant(self);
        }
        let width = self.width as usize;
        assert(self.width * self.height <= 0xffff_ffff * 0xffff_ffff) by (nonlinear_arith)
            requires
                self.width <= 0xffff_ffff,
                self.height <= 0xffff_ffff,
        ;
        let pixels: u128 = (self.width as u128) * (self.height as u128);
        if frame.len() as u128 != pixels * 4 {
            return Err(WorldError::BufferSizeMismatch);
        }
        let count: usize = frame.len() / 4;
        let mut i: usize = 0;
        while i < count
            invariant
                self@.valid(),
                width == self@.width,
                count == self@.width * self@.height,
                frame@.len() == 4 * count,
                4 * count <= usize::MAX,
                frame@.len() == self@.frame_len(),
                0 <= i <= count,
                forall|k: int| 0 <= k < 4 * i ==> frame@[k] == self@.frame()[k],
            decreases count - i,
        {
            assert(i / width < self.height) by (nonlinear_arith)
                requires
                    0 <= i < self.width * self.height,
                    width == self.width,
                    width > 0,
            ;
            let px = (i % width) as u32;
            let py = (i / width) as u32;
            let rgba = if self.covers(px, py) {
                box_color()
            } else {
                background_color()
            };
            let bytes = rgba.get_buffer();
            let at: usize = i * 4;
            frame[at] = bytes[0];
            frame[at + 1] = bytes[1];
            frame[at + 2] = bytes[2];
            frame[at + 3] = bytes[3];
            proof {
                assert(rgba == self@.color_at(i as int));
                assert forall|k: int| 4 * i <= k < 4 * i + 4 implies frame@[k]
                    == self@.frame()[k] by {
                    assert(k / 4 == i);
                    assert(self@.frame()[k] == self@.color_at(k / 4).bytes()[k % 4]);
                }
            }
            i += 1;
        }
        assert(frame@ =~= self@.frame());
        Ok(())
    }
}

} // verus!
